use group_metrics::kinds::GroupMetricsKind;
use group_metrics::timing::{
    duration_message, event_message, label_of, log_and_update_duration, report_and_restart,
    log_event_at_time_with_kind, to_decimal,
};
use std::time::{Duration, SystemTime};

#[test]
fn numbers_in_decimal() {
    assert_eq!(to_decimal(0), "0");
    assert_eq!(to_decimal(7), "7");
    assert_eq!(to_decimal(9), "9");
    assert_eq!(to_decimal(10), "10");
    assert_eq!(to_decimal(1234567890), "1234567890");
    assert_eq!(to_decimal(1_000_000), "1000000");
    assert_eq!(to_decimal(u128::MAX), u128::MAX.to_string());
    assert_eq!(to_decimal(u128::MAX), "340282366920938463463374607431768211455");
}

#[test]
fn labels_of_kinds() {
    assert_eq!(label_of(GroupMetricsKind::Producers), "Producers");
    assert_eq!(label_of(GroupMetricsKind::Consumers), "Consumers");
    assert_eq!(label_of(GroupMetricsKind::ProducingConsumers), "Producing Consumers");
    assert_eq!(
        label_of(GroupMetricsKind::ProducersAndConsumers),
        "Producers and Consumers"
    );
}

#[test]
fn line_of_a_measured_duration() {
    assert_eq!(
        duration_message("Extract latency time series", Some(1250)),
        "Extract latency time series took 1250 microsec"
    );
    assert_eq!(duration_message("", Some(0)), " took 0 microsec");
}

#[test]
fn line_of_an_unknown_duration() {
    assert_eq!(
        duration_message("Compute MB moving average", None),
        "Compute MB moving average took unknown time"
    );
}

#[test]
fn line_of_an_event() {
    assert_eq!(
        event_message(
            GroupMetricsKind::Producers,
            "Completed calculate_latency_metrics",
            Some(42)
        ),
        "Producers: Completed calculate_latency_metrics @ 42 microsec"
    );
    assert_eq!(
        event_message(GroupMetricsKind::ProducersAndConsumers, "Completed", None),
        "Producers and Consumers: Completed @ unknown time"
    );
}

fn microseconds_of(line: &str, before: &str) -> u128 {
    let rest = line.strip_prefix(before).unwrap();
    let digits = rest.strip_suffix(" microsec").unwrap();
    assert!(!digits.is_empty());
    assert!(digits.chars().all(|c| c.is_ascii_digit()));
    digits.parse().unwrap()
}

#[test]
fn duration_is_reported_and_the_clock_restarted() {
    let start = SystemTime::now() - Duration::from_secs(3);
    let mut now = start;
    let line = log_and_update_duration("Begin time series ops", &mut now);
    let micros = microseconds_of(&line, "Begin time series ops took ");
    assert!(micros >= 3_000_000);
    assert!(now > start);
    assert!(now <= SystemTime::now());
    let line = log_and_update_duration("Next", &mut now);
    let micros = microseconds_of(&line, "Next took ");
    assert!(micros < 3_000_000);
}

#[test]
fn duration_since_a_time_to_come_is_unknown() {
    let mut now = SystemTime::now() + Duration::from_secs(3600);
    let line = log_and_update_duration("Ahead", &mut now);
    assert_eq!(line, "Ahead took unknown time");
    assert!(now <= SystemTime::now());
}

#[test]
fn event_is_reported_with_its_time() {
    let start = SystemTime::now() - Duration::from_secs(2);
    let line = log_event_at_time_with_kind(
        "Completed determine_group_kind",
        start,
        GroupMetricsKind::Consumers,
    );
    let micros = microseconds_of(&line, "Consumers: Completed determine_group_kind @ ");
    assert!(micros >= 2_000_000);
    let ahead = SystemTime::now() + Duration::from_secs(3600);
    let line = log_event_at_time_with_kind("Done", ahead, GroupMetricsKind::ProducingConsumers);
    assert_eq!(line, "Producing Consumers: Done @ unknown time");
}

#[test]
fn clock_is_restarted_with_the_reading_given() {
    let start = SystemTime::now() - Duration::from_secs(10);
    let reading = SystemTime::now() + Duration::from_secs(77);
    let mut now = start;
    let line = report_and_restart("Extract MB time series", Some(42), &mut now, reading);
    assert_eq!(line, "Extract MB time series took 42 microsec");
    assert_eq!(now, reading);
    let past = SystemTime::now() - Duration::from_secs(500);
    let line = report_and_restart("Extract MB time series", None, &mut now, past);
    assert_eq!(line, "Extract MB time series took unknown time");
    assert_eq!(now, past);
}
