use group_metrics::kinds::ActorKind;
use group_metrics::metrics::{IndividualMetrics, IndividualMetricsSummary};
use group_metrics::reduce::{scalar_extent, scalar_mean, scalar_of, scalar_total, ScalarField};
use group_metrics::utils::{batch_total_size_bytes, batch_user_size_bytes, MessageSize};

fn summary() -> IndividualMetricsSummary {
    IndividualMetricsSummary {
        actor_kind: ActorKind::Producer,
        data_throughput: 1,
        message_throughput: 2,
        p50_latency: 3,
        p90_latency: 4,
        p95_latency: 5,
        p99_latency: 6,
        p999_latency: 7,
        p9999_latency: 8,
        mean_latency: 9,
        median_latency: 10,
        min_latency: 11,
        max_latency: 12,
        message_batches: 13,
    }
}

fn with_p99(values: &[u64]) -> Vec<IndividualMetrics> {
    values
        .iter()
        .map(|value| {
            let mut own = summary();
            own.p99_latency = *value;
            IndividualMetrics {
                summary: own,
                data_throughput_series: vec![],
                message_throughput_series: vec![],
                latency_series: vec![],
            }
        })
        .collect()
}

#[test]
fn each_field_is_read_by_its_name() {
    let own = summary();
    assert_eq!(scalar_of(&own, ScalarField::DataThroughput), 1);
    assert_eq!(scalar_of(&own, ScalarField::MessageThroughput), 2);
    assert_eq!(scalar_of(&own, ScalarField::P50Latency), 3);
    assert_eq!(scalar_of(&own, ScalarField::P90Latency), 4);
    assert_eq!(scalar_of(&own, ScalarField::P95Latency), 5);
    assert_eq!(scalar_of(&own, ScalarField::P99Latency), 6);
    assert_eq!(scalar_of(&own, ScalarField::P999Latency), 7);
    assert_eq!(scalar_of(&own, ScalarField::P9999Latency), 8);
    assert_eq!(scalar_of(&own, ScalarField::MeanLatency), 9);
    assert_eq!(scalar_of(&own, ScalarField::MedianLatency), 10);
    assert_eq!(scalar_of(&own, ScalarField::MinLatency), 11);
    assert_eq!(scalar_of(&own, ScalarField::MaxLatency), 12);
    assert_eq!(scalar_of(&own, ScalarField::MessageBatches), 13);
}

#[test]
fn total_of_a_field() {
    assert_eq!(scalar_total(&with_p99(&[]), ScalarField::P99Latency), 0);
    assert_eq!(scalar_total(&with_p99(&[5]), ScalarField::P99Latency), 5);
    assert_eq!(scalar_total(&with_p99(&[5, 0, 7, 9]), ScalarField::P99Latency), 21);
    assert_eq!(scalar_total(&with_p99(&[5, 0, 7, 9]), ScalarField::P50Latency), 12);
    assert_eq!(
        scalar_total(&with_p99(&[u64::MAX, u64::MAX, 2]), ScalarField::P99Latency),
        2 * (u64::MAX as u128) + 2
    );
}

#[test]
fn mean_of_a_field_is_rounded_down() {
    assert_eq!(scalar_mean(&with_p99(&[]), ScalarField::P99Latency), 0);
    assert_eq!(scalar_mean(&with_p99(&[5]), ScalarField::P99Latency), 5);
    assert_eq!(scalar_mean(&with_p99(&[5, 6]), ScalarField::P99Latency), 5);
    assert_eq!(scalar_mean(&with_p99(&[1, 2, 9]), ScalarField::P99Latency), 4);
    assert_eq!(scalar_mean(&with_p99(&[0, 0, 2]), ScalarField::P99Latency), 0);
    assert_eq!(
        scalar_mean(&with_p99(&[u64::MAX, u64::MAX]), ScalarField::P99Latency),
        u64::MAX as u128
    );
}

#[test]
fn extent_of_a_field() {
    assert_eq!(scalar_extent(&with_p99(&[]), ScalarField::P99Latency), None);
    assert_eq!(scalar_extent(&with_p99(&[5]), ScalarField::P99Latency), Some((5, 5)));
    assert_eq!(
        scalar_extent(&with_p99(&[5, 2, 8, 2, 8, 3]), ScalarField::P99Latency),
        Some((2, 8))
    );
    assert_eq!(
        scalar_extent(&with_p99(&[9, 8, 7]), ScalarField::P99Latency),
        Some((7, 9))
    );
    assert_eq!(
        scalar_extent(&with_p99(&[0, u64::MAX]), ScalarField::P99Latency),
        Some((0, u64::MAX))
    );
}

#[test]
fn sizes_of_a_batch_are_added_up() {
    let messages = vec![
        MessageSize { total_bytes: 164, payload_bytes: 100 },
        MessageSize { total_bytes: 64, payload_bytes: 0 },
        MessageSize { total_bytes: 1100, payload_bytes: 1000 },
    ];
    assert_eq!(batch_total_size_bytes(&messages), 1328);
    assert_eq!(batch_user_size_bytes(&messages), 1100);
    assert_eq!(batch_total_size_bytes(&[]), 0);
    assert_eq!(batch_user_size_bytes(&[]), 0);
    let wide = MessageSize { total_bytes: u64::MAX, payload_bytes: u64::MAX - 64 };
    assert_eq!(batch_total_size_bytes(&[wide, wide]), 2 * (u64::MAX as u128));
    assert_eq!(batch_user_size_bytes(&[wide, wide]), 2 * (u64::MAX as u128) - 128);
}
