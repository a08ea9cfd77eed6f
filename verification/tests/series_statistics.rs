use group_metrics::statistics::{integer_sqrt, max, min, std_dev};

#[test]
fn least_and_greatest_sample() {
    assert_eq!(min(&vec![4, 2, 9, 2, 3]), Some(2));
    assert_eq!(max(&vec![4, 2, 9, 2, 9, 3]), Some(9));
    assert_eq!(min(&vec![6]), Some(6));
    assert_eq!(max(&vec![6]), Some(6));
    assert_eq!(min(&vec![3, 2, 1]), Some(1));
    assert_eq!(max(&vec![1, 2, 3]), Some(3));
    assert_eq!(min(&vec![u128::MAX, 5]), Some(5));
    assert_eq!(max(&vec![u128::MAX, 5]), Some(u128::MAX));
}

#[test]
fn series_without_samples_has_no_extent() {
    assert_eq!(min(&vec![]), None);
    assert_eq!(max(&vec![]), None);
}

#[test]
fn square_roots_are_rounded_down() {
    assert_eq!(integer_sqrt(0), 0);
    assert_eq!(integer_sqrt(1), 1);
    assert_eq!(integer_sqrt(2), 1);
    assert_eq!(integer_sqrt(3), 1);
    assert_eq!(integer_sqrt(4), 2);
    assert_eq!(integer_sqrt(15), 3);
    assert_eq!(integer_sqrt(16), 4);
    assert_eq!(integer_sqrt(17), 4);
    assert_eq!(integer_sqrt(1_000_000), 1000);
    assert_eq!(integer_sqrt(999_999), 999);
    assert_eq!(integer_sqrt(u128::MAX), u64::MAX as u128);
    assert_eq!(integer_sqrt((u64::MAX as u128) * (u64::MAX as u128)), u64::MAX as u128);
    assert_eq!(
        integer_sqrt((u64::MAX as u128) * (u64::MAX as u128) - 1),
        u64::MAX as u128 - 1
    );
    assert_eq!(integer_sqrt(1 << 64), 1 << 32);
}

#[test]
fn standard_deviation_of_a_series() {
    // Mean 4, squared deviations [4, 0, 4], variance 2.
    assert_eq!(std_dev(&vec![2, 4, 6]), Some(1));
    // Mean 5, squared deviations [25, 25], variance 25.
    assert_eq!(std_dev(&vec![0, 10]), Some(5));
    // Mean 7, squared deviations [16, 1, 4, 16], variance 9.
    assert_eq!(std_dev(&vec![3, 6, 9, 11]), Some(3));
    // Mean 50, variance 1600.
    assert_eq!(std_dev(&vec![10, 90, 10, 90]), Some(40));
    assert_eq!(std_dev(&vec![5, 5, 5, 5]), Some(0));
    assert_eq!(std_dev(&vec![8]), Some(0));
}

#[test]
fn standard_deviation_of_widest_samples() {
    let wide = u64::MAX as u128;
    assert_eq!(std_dev(&vec![wide, wide]), Some(0));
    // Mean rounded down to (wide - 1) / 2, distances (wide - 1) / 2 and
    // (wide + 1) / 2.
    let low = (wide - 1) / 2;
    let high = (wide + 1) / 2;
    let variance = (low * low + high * high) / 2;
    let deviation = std_dev(&vec![0, wide]).unwrap();
    assert!(deviation * deviation <= variance);
    assert!((deviation + 1) * (deviation + 1) > variance);
    assert_eq!(deviation, low);
}

#[test]
fn series_without_samples_has_no_standard_deviation() {
    assert_eq!(std_dev(&vec![]), None);
}
