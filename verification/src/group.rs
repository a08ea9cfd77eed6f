//! The aggregation of the records of a group of actors into one summary.

use crate::kinds::{ActorKind, GroupMetricsKind, HOMOGENEOUS_GROUP_SIZE};
use crate::metrics::{
    records_view, GroupMetrics, GroupMetricsSummary, GroupMetricsView, IndividualMetrics,
    IndividualMetricsView,
};
use crate::reduce::{
    bounded_by, greatest, least, lemma_mean_bound, mean, scalar_column, scalar_extent,
    scalar_mean, scalar_total, sum, ScalarField,
};
use crate::statistics::{is_integer_root, max, min, narrow, std_dev, values, variance};
use crate::text::texts;
use crate::time_series::{
    averaged, samples_at, series_list, smoothed, span, summed, window_start,
    MovingAverageProcessor, TimeSeriesCalculator,
};
use crate::timing::{
    decimal, is_duration_line, is_event_line, kind_label, label_of, log_and_update_duration,
    log_event_at_time_with_kind, to_decimal,
};
use std::time::SystemTime;
use vstd::prelude::*;
use vstd::string::StringExecFns;

verus! {

/// Names one of the three series that are sampled of an actor.
#[derive(Clone, Copy, Debug, PartialEq, Eq, Structural)]
pub enum Channel {
    DataThroughput,
    MessageThroughput,
    Latency,
}

/// The series of a record that `channel` names.
pub open spec fn channel_series(record: IndividualMetricsView, channel: Channel) -> Seq<u64> {
    match channel {
        Channel::DataThroughput => record.data_throughput_series,
        Channel::MessageThroughput => record.message_throughput_series,
        Channel::Latency => record.latency_series,
    }
}

/// The series that `channel` names, record by record.
pub open spec fn channel_list(
    records: Seq<IndividualMetricsView>,
    channel: Channel,
) -> Seq<Seq<u64>> {
    Seq::new(records.len(), |i: int| channel_series(records[i], channel))
}

/// The kind of a group: that of its first actor where the group has
/// exactly [`HOMOGENEOUS_GROUP_SIZE`] records, mixed for every other size.
pub open spec fn group_kind(records: Seq<IndividualMetricsView>) -> GroupMetricsKind {
    if records.len() == HOMOGENEOUS_GROUP_SIZE {
        crate::kinds::kind_of_actor(records[0].summary.actor_kind)
    } else {
        GroupMetricsKind::ProducersAndConsumers
    }
}

/// The least and the greatest latency of a group. They are taken from the
/// records; without records from the samples of `fallback`; and where that
/// has no samples either, both are 0.
pub open spec fn latency_extent(
    records: Seq<IndividualMetricsView>,
    fallback: Seq<u128>,
) -> (nat, nat) {
    if records.len() > 0 {
        (
            least(scalar_column(records, ScalarField::MinLatency)),
            greatest(scalar_column(records, ScalarField::MaxLatency)),
        )
    } else if fallback.len() > 0 {
        (least(values(fallback)), greatest(values(fallback)))
    } else {
        (0, 0)
    }
}

/// The three series of a group: the two throughput channels summed over the
/// records, the latency channel averaged over them, and each of the three
/// then smoothed by a moving average over `window` samples.
pub open spec fn group_series(
    records: Seq<IndividualMetricsView>,
    window: nat,
) -> (Seq<u128>, Seq<u128>, Seq<u128>) {
    (
        smoothed(summed(channel_list(records, Channel::DataThroughput)), window),
        smoothed(summed(channel_list(records, Channel::MessageThroughput)), window),
        smoothed(averaged(channel_list(records, Channel::Latency)), window),
    )
}

/// Whether `group` is the aggregate of `records`, smoothed over `window`
/// samples and classified as `kind`.
pub open spec fn summarizes_as(
    group: GroupMetricsView,
    records: Seq<IndividualMetricsView>,
    window: nat,
    kind: GroupMetricsKind,
) -> bool {
    let summary = group.summary;
    &&& summary.kind == kind
    &&& summary.total_data_throughput == sum(scalar_column(records, ScalarField::DataThroughput))
    &&& summary.total_message_throughput == sum(
        scalar_column(records, ScalarField::MessageThroughput),
    )
    &&& summary.average_data_throughput
        == (summary.total_data_throughput as int) / (records.len() as int)
    &&& summary.average_message_throughput
        == (summary.total_message_throughput as int) / (records.len() as int)
    &&& summary.average_p50_latency == mean(scalar_column(records, ScalarField::P50Latency))
    &&& summary.average_p90_latency == mean(scalar_column(records, ScalarField::P90Latency))
    &&& summary.average_p95_latency == mean(scalar_column(records, ScalarField::P95Latency))
    &&& summary.average_p99_latency == mean(scalar_column(records, ScalarField::P99Latency))
    &&& summary.average_p999_latency == mean(scalar_column(records, ScalarField::P999Latency))
    &&& summary.average_p9999_latency == mean(scalar_column(records, ScalarField::P9999Latency))
    &&& summary.average_mean_latency == mean(scalar_column(records, ScalarField::MeanLatency))
    &&& summary.average_median_latency == mean(
        scalar_column(records, ScalarField::MedianLatency),
    )
    &&& (group.data_throughput_series, group.message_throughput_series, group.latency_series)
        == group_series(records, window)
    &&& (summary.min_latency as nat, summary.max_latency as nat) == latency_extent(
        records,
        group.latency_series,
    )
    &&& if group.latency_series.len() == 0 {
        summary.latency_std_dev == 0
    } else {
        is_integer_root(summary.latency_std_dev as nat, variance(group.latency_series))
    }
}

/// Whether `group` is the aggregate of `records`, smoothed over `window`
/// samples and classified by [`group_kind`].
pub open spec fn summarizes(
    group: GroupMetricsView,
    records: Seq<IndividualMetricsView>,
    window: nat,
) -> bool {
    summarizes_as(group, records, window, group_kind(records))
}

/// The totals and averages of the two throughput results of a group.
#[derive(Clone, Copy, Debug, PartialEq, Eq, Structural)]
pub struct ThroughputMetrics {
    pub total_data_throughput: u128,
    pub total_message_throughput: u128,
    pub average_data_throughput: u128,
    pub average_message_throughput: u128,
}

/// The averages of the latency results of a group.
#[derive(Clone, Copy, Debug, PartialEq, Eq, Structural)]
pub struct LatencyMetrics {
    pub p50_latency: u128,
    pub p90_latency: u128,
    pub p95_latency: u128,
    pub p99_latency: u128,
    pub p999_latency: u128,
    pub p9999_latency: u128,
    pub mean_latency: u128,
    pub median_latency: u128,
}

/// The kind of a group whose actors are all of the kind `actor`.
fn kind_of(actor: ActorKind) -> (kind: GroupMetricsKind)
    ensures
        kind == crate::kinds::kind_of_actor(actor),
{
    match actor {
        ActorKind::Producer => GroupMetricsKind::Producers,
        ActorKind::Consumer => GroupMetricsKind::Consumers,
        ActorKind::ProducingConsumer => GroupMetricsKind::ProducingConsumers,
    }
}

/// The classification policy, which nothing else decides. A group of
/// exactly [`HOMOGENEOUS_GROUP_SIZE`] records takes its kind from its first
/// actor; a group of any other size, the empty one too, counts as mixed,
/// whatever its actors are.
pub fn determine_group_kind(stats: &[IndividualMetrics]) -> (kind: GroupMetricsKind)
    ensures
        kind == group_kind(records_view(stats@)),
{
    if stats.len() == HOMOGENEOUS_GROUP_SIZE {
        kind_of(stats[0].summary.actor_kind)
    } else {
        GroupMetricsKind::ProducersAndConsumers
    }
}

/// The total of each throughput result over the records, and that total
/// divided by the number of records, rounded down. Without records all four
/// are 0.
pub fn calculate_throughput_metrics(stats: &[IndividualMetrics]) -> (metrics: ThroughputMetrics)
    ensures
        metrics.total_data_throughput == sum(
            scalar_column(records_view(stats@), ScalarField::DataThroughput),
        ),
        metrics.total_message_throughput == sum(
            scalar_column(records_view(stats@), ScalarField::MessageThroughput),
        ),
        metrics.average_data_throughput == mean(
            scalar_column(records_view(stats@), ScalarField::DataThroughput),
        ),
        metrics.average_message_throughput == mean(
            scalar_column(records_view(stats@), ScalarField::MessageThroughput),
        ),
        stats@.len() > 0 ==> metrics.average_data_throughput
            == (metrics.total_data_throughput as int) / (stats@.len() as int),
        stats@.len() > 0 ==> metrics.average_message_throughput
            == (metrics.total_message_throughput as int) / (stats@.len() as int),
{
    let total_data: u128 = scalar_total(stats, ScalarField::DataThroughput);
    let total_messages: u128 = scalar_total(stats, ScalarField::MessageThroughput);
    if stats.len() == 0 {
        ThroughputMetrics {
            total_data_throughput: total_data,
            total_message_throughput: total_messages,
            average_data_throughput: 0,
            average_message_throughput: 0,
        }
    } else {
        let count: u128 = stats.len() as u128;
        ThroughputMetrics {
            total_data_throughput: total_data,
            total_message_throughput: total_messages,
            average_data_throughput: total_data / count,
            average_message_throughput: total_messages / count,
        }
    }
}

/// The mean over the records, rounded down, of each latency percentile and
/// of the mean and the median latency. These are averages of the
/// percentiles of the actors, not percentiles of their pooled samples.
/// Without records all are 0.
pub fn calculate_latency_metrics(stats: &[IndividualMetrics]) -> (metrics: LatencyMetrics)
    ensures
        metrics.p50_latency == mean(scalar_column(records_view(stats@), ScalarField::P50Latency)),
        metrics.p90_latency == mean(scalar_column(records_view(stats@), ScalarField::P90Latency)),
        metrics.p95_latency == mean(scalar_column(records_view(stats@), ScalarField::P95Latency)),
        metrics.p99_latency == mean(scalar_column(records_view(stats@), ScalarField::P99Latency)),
        metrics.p999_latency == mean(
            scalar_column(records_view(stats@), ScalarField::P999Latency),
        ),
        metrics.p9999_latency == mean(
            scalar_column(records_view(stats@), ScalarField::P9999Latency),
        ),
        metrics.mean_latency == mean(
            scalar_column(records_view(stats@), ScalarField::MeanLatency),
        ),
        metrics.median_latency == mean(
            scalar_column(records_view(stats@), ScalarField::MedianLatency),
        ),
{
    LatencyMetrics {
        p50_latency: scalar_mean(stats, ScalarField::P50Latency),
        p90_latency: scalar_mean(stats, ScalarField::P90Latency),
        p95_latency: scalar_mean(stats, ScalarField::P95Latency),
        p99_latency: scalar_mean(stats, ScalarField::P99Latency),
        p999_latency: scalar_mean(stats, ScalarField::P999Latency),
        p9999_latency: scalar_mean(stats, ScalarField::P9999Latency),
        mean_latency: scalar_mean(stats, ScalarField::MeanLatency),
        median_latency: scalar_mean(stats, ScalarField::MedianLatency),
    }
}

/// The series that `channel` names, copied out of each record.
fn collect_series(stats: &[IndividualMetrics], channel: Channel) -> (series: Vec<Vec<u64>>)
    ensures
        series_list(series@) == channel_list(records_view(stats@), channel),
{
    let mut series: Vec<Vec<u64>> = Vec::new();
    let mut i: usize = 0;
    while i < stats.len()
        invariant
            i <= stats.len(),
            series@.len() == i,
            forall|k: int|
                0 <= k < i ==> (#[trigger] series@[k])@ == channel_series(stats@[k]@, channel),
        decreases stats.len() - i,
    {
        let copy: Vec<u64> = match channel {
            Channel::DataThroughput => stats[i].data_throughput_series.clone(),
            Channel::MessageThroughput => stats[i].message_throughput_series.clone(),
            Channel::Latency => stats[i].latency_series.clone(),
        };
        assert(copy@ =~= channel_series(stats@[i as int]@, channel));
        series.push(copy);
        i = i + 1;
    }
    assert(series_list(series@) =~= channel_list(records_view(stats@), channel));
    series
}

/// The three series of a group: the two throughput channels summed over the
/// records, the latency channel averaged over them, and each of the three
/// then smoothed by a moving average over `moving_average_window` samples.
pub fn calculate_group_time_series(
    stats: &[IndividualMetrics],
    moving_average_window: u32,
) -> (series: (Vec<u128>, Vec<u128>, Vec<u128>))
    ensures
        (series.0@, series.1@, series.2@) == group_series(
            records_view(stats@),
            moving_average_window as nat,
        ),
{
    let data = TimeSeriesCalculator::aggregate_sum(
        collect_series(stats, Channel::DataThroughput).as_slice(),
    );
    let messages = TimeSeriesCalculator::aggregate_sum(
        collect_series(stats, Channel::MessageThroughput).as_slice(),
    );
    let latency = TimeSeriesCalculator::aggregate_avg(
        collect_series(stats, Channel::Latency).as_slice(),
    );
    let sma = MovingAverageProcessor::new(moving_average_window as usize);
    (sma.process(&data), sma.process(&messages), sma.process(&latency))
}

/// The least and the greatest latency of a group. They are the least of the
/// least latencies and the greatest of the greatest latencies of the
/// records; without records the least and the greatest sample of
/// `avg_latency_ts`; and where that has no samples either, both are 0.
pub fn calculate_min_max_latencies(
    stats: &[IndividualMetrics],
    avg_latency_ts: &Vec<u128>,
) -> (extent: (u128, u128))
    ensures
        (extent.0 as nat, extent.1 as nat) == latency_extent(
            records_view(stats@),
            avg_latency_ts@,
        ),
{
    let min_latency: Option<u128> = match scalar_extent(stats, ScalarField::MinLatency) {
        Some((low, _)) => Some(low as u128),
        None => None,
    };
    let max_latency: Option<u128> = match scalar_extent(stats, ScalarField::MaxLatency) {
        Some((_, high)) => Some(high as u128),
        None => None,
    };
    let min_latency_value: u128 = match min_latency {
        Some(value) => value,
        None => match min(avg_latency_ts) {
            Some(value) => value,
            None => 0,
        },
    };
    let max_latency_value: u128 = match max_latency {
        Some(value) => value,
        None => match max(avg_latency_ts) {
            Some(value) => value,
            None => 0,
        },
    };
    (min_latency_value, max_latency_value)
}

/// Every sample of the latency series of a group fits in 64 bits.
pub proof fn lemma_latency_series_narrow(records: Seq<IndividualMetricsView>, window: nat)
    ensures
        narrow(group_series(records, window).2),
{
    let list = channel_list(records, Channel::Latency);
    let combined = averaged(list);
    assert forall|j: int| 0 <= j < combined.len() implies #[trigger] combined[j]
        <= u64::MAX by {
        assert(bounded_by(samples_at(list, j), u64::MAX as nat));
        lemma_mean_bound(samples_at(list, j), u64::MAX as nat);
    }
    let smooth = smoothed(combined, window);
    assert forall|j: int| 0 <= j < smooth.len() implies #[trigger] smooth[j] <= u64::MAX by {
        let part = span(combined, window_start(j, window), j + 1);
        assert(bounded_by(part, u64::MAX as nat));
        lemma_mean_bound(part, u64::MAX as nat);
    }
}

/// Aggregates the records of a group of actors.
///
/// Without records there is nothing to summarize and the result is `None`.
/// Otherwise the group is classified by [`determine_group_kind`]; its
/// throughput is totalled and averaged over the records, and each of its
/// latency results averaged; the series of the records are combined and
/// smoothed as [`calculate_group_time_series`] says; the least and the
/// greatest latency are those of the records; and the standard deviation of
/// the latency is that of the combined and smoothed latency series, or 0
/// where that series has no samples.
pub fn from_individual_metrics(
    stats: &[IndividualMetrics],
    moving_average_window: u32,
) -> (result: Option<GroupMetrics>)
    ensures
        stats@.len() == 0 <==> result is None,
        result matches Some(group) ==> summarizes(
            group@,
            records_view(stats@),
            moving_average_window as nat,
        ),
{
    if stats.len() == 0 {
        return None;
    }
    let kind = determine_group_kind(stats);
    let throughput_metrics = calculate_throughput_metrics(stats);
    let latency_metrics = calculate_latency_metrics(stats);
    let time_series = calculate_group_time_series(stats, moving_average_window);
    let (min_latency_value, max_latency_value) = calculate_min_max_latencies(
        stats,
        &time_series.2,
    );
    proof {
        lemma_latency_series_narrow(records_view(stats@), moving_average_window as nat);
    }
    let latency_std_dev: u128 = match std_dev(&time_series.2) {
        Some(deviation) => deviation,
        None => 0,
    };
    let summary = GroupMetricsSummary {
        kind,
        total_data_throughput: throughput_metrics.total_data_throughput,
        total_message_throughput: throughput_metrics.total_message_throughput,
        average_data_throughput: throughput_metrics.average_data_throughput,
        average_message_throughput: throughput_metrics.average_message_throughput,
        average_p50_latency: latency_metrics.p50_latency,
        average_p90_latency: latency_metrics.p90_latency,
        average_p95_latency: latency_metrics.p95_latency,
        average_p99_latency: latency_metrics.p99_latency,
        average_p999_latency: latency_metrics.p999_latency,
        average_p9999_latency: latency_metrics.p9999_latency,
        average_mean_latency: latency_metrics.mean_latency,
        average_median_latency: latency_metrics.median_latency,
        min_latency: min_latency_value,
        max_latency: max_latency_value,
        latency_std_dev,
    };
    Some(
        GroupMetrics {
            summary,
            data_throughput_series: time_series.0,
            message_throughput_series: time_series.1,
            latency_series: time_series.2,
        },
    )
}

/// The records of `front` followed by those of `back`.
fn concatenate(
    front: &[IndividualMetrics],
    back: &[IndividualMetrics],
) -> (all: Vec<IndividualMetrics>)
    ensures
        all@.len() == front@.len() + back@.len(),
        records_view(all@) == records_view(front@) + records_view(back@),
{
    let mut all: Vec<IndividualMetrics> = Vec::new();
    let mut i: usize = 0;
    while i < front.len()
        invariant
            i <= front.len(),
            all@.len() == i,
            forall|k: int| 0 <= k < i ==> (#[trigger] all@[k])@ == front@[k]@,
        decreases front.len() - i,
    {
        all.push(front[i].clone());
        i = i + 1;
    }
    let mut j: usize = 0;
    while j < back.len()
        invariant
            j <= back.len(),
            all@.len() == front@.len() + j,
            forall|k: int| 0 <= k < front@.len() ==> (#[trigger] all@[k])@ == front@[k]@,
            forall|k: int|
                front@.len() <= k < front@.len() + j ==> (#[trigger] all@[k])@ == back@[k
                    - front@.len()]@,
        decreases back.len() - j,
    {
        all.push(back[j].clone());
        j = j + 1;
    }
    assert(records_view(all@) =~= records_view(front@) + records_view(back@));
    all
}

/// Aggregates the records of the producers and the consumers of one
/// benchmark into the summary of a mixed group.
///
/// The records are aggregated as [`from_individual_metrics`] aggregates the
/// producers' records followed by the consumers', but the group is always
/// classified as [`GroupMetricsKind::ProducersAndConsumers`], whatever
/// [`determine_group_kind`] would make of them. Without any record the
/// result is `None`.
pub fn from_producers_and_consumers_statistics(
    producers_stats: &[IndividualMetrics],
    consumers_stats: &[IndividualMetrics],
    moving_average_window: u32,
) -> (result: Option<GroupMetrics>)
    ensures
        producers_stats@.len() + consumers_stats@.len() == 0 <==> result is None,
        result matches Some(group) ==> summarizes_as(
            group@,
            records_view(producers_stats@) + records_view(consumers_stats@),
            moving_average_window as nat,
            GroupMetricsKind::ProducersAndConsumers,
        ),
{
    let all = concatenate(producers_stats, consumers_stats);
    match from_individual_metrics(all.as_slice(), moving_average_window) {
        Some(group) => {
            let mut summary = group;
            summary.summary.kind = GroupMetricsKind::ProducersAndConsumers;
            Some(summary)
        },
        None => None,
    }
}

/// The line that says of which kind a group is and how many records it
/// has: the kind, `: len ` and the number.
pub open spec fn count_line(kind: GroupMetricsKind, count: nat) -> Seq<char> {
    kind_label(kind) + ": len "@ + decimal(count)
}

/// Whether `lines` report the seven steps in which the series of a group
/// are made, each with the time that it took: the start, the combination
/// of each of the three channels, and the smoothing of each.
pub open spec fn series_lines(lines: Seq<Seq<char>>) -> bool {
    &&& lines.len() == 7
    &&& is_duration_line(lines[0], "Begin time series ops"@)
    &&& is_duration_line(lines[1], "Extract MB time series"@)
    &&& is_duration_line(lines[2], "Extract message time series"@)
    &&& is_duration_line(lines[3], "Extract latency time series"@)
    &&& is_duration_line(lines[4], "Compute MB moving average"@)
    &&& is_duration_line(lines[5], "Compute message moving average"@)
    &&& is_duration_line(lines[6], "Compute latency moving average"@)
}

/// Whether `lines` report the aggregation of `count` records into a group
/// of kind `kind`: the kind and the count, the end of each stage with the
/// time at which it was reached, and between them, where the series are
/// made, the seven lines of [`series_lines`].
pub open spec fn aggregation_lines(
    lines: Seq<Seq<char>>,
    kind: GroupMetricsKind,
    count: nat,
) -> bool {
    &&& lines.len() == 14
    &&& lines[0] == count_line(kind, count)
    &&& is_event_line(lines[1], kind, "Completed determine_group_kind"@)
    &&& is_event_line(lines[2], kind, "Completed calculate_throughput_metrics"@)
    &&& is_event_line(lines[3], kind, "Completed calculate_latency_metrics"@)
    &&& series_lines(lines.subrange(4, 11))
    &&& is_event_line(lines[11], kind, "Completed calculate_group_time_series"@)
    &&& is_event_line(lines[12], kind, "Completed calculate_min_max_latencies"@)
    &&& is_event_line(lines[13], kind, "Completed from_individual_metrics"@)
}

/// The series of a group, as [`calculate_group_time_series`] makes them,
/// and with them the lines that report how long each step took.
pub fn calculate_group_time_series_with_lines(
    stats: &[IndividualMetrics],
    moving_average_window: u32,
) -> (result: ((Vec<u128>, Vec<u128>, Vec<u128>), Vec<String>))
    ensures
        (result.0.0@, result.0.1@, result.0.2@) == group_series(
            records_view(stats@),
            moving_average_window as nat,
        ),
        series_lines(texts(result.1@)),
{
    let mut lines: Vec<String> = Vec::new();
    let mut now = SystemTime::now();
    lines.push(log_and_update_duration("Begin time series ops", &mut now));
    let data = TimeSeriesCalculator::aggregate_sum(
        collect_series(stats, Channel::DataThroughput).as_slice(),
    );
    lines.push(log_and_update_duration("Extract MB time series", &mut now));
    let messages = TimeSeriesCalculator::aggregate_sum(
        collect_series(stats, Channel::MessageThroughput).as_slice(),
    );
    lines.push(log_and_update_duration("Extract message time series", &mut now));
    let latency = TimeSeriesCalculator::aggregate_avg(
        collect_series(stats, Channel::Latency).as_slice(),
    );
    lines.push(log_and_update_duration("Extract latency time series", &mut now));
    let sma = MovingAverageProcessor::new(moving_average_window as usize);
    let data = sma.process(&data);
    lines.push(log_and_update_duration("Compute MB moving average", &mut now));
    let messages = sma.process(&messages);
    lines.push(log_and_update_duration("Compute message moving average", &mut now));
    let latency = sma.process(&latency);
    lines.push(log_and_update_duration("Compute latency moving average", &mut now));
    ((data, messages, latency), lines)
}

/// The line that says of which kind a group is and how many records it has.
pub fn count_message(kind: GroupMetricsKind, count: usize) -> (line: String)
    ensures
        line@ == count_line(kind, count as nat),
{
    let mut line = String::from_str(label_of(kind));
    line.append(": len ");
    line.append(to_decimal(count as u128).as_str());
    line
}

/// Aggregates the records of a group of actors as
/// [`from_individual_metrics`] does, and hands back, with the aggregate,
/// the lines that report the aggregation: the kind and the size of the
/// group, and each stage with its time. Without records there is no
/// aggregate and no line. Nothing is written anywhere: the caller decides
/// what becomes of the lines.
pub fn from_individual_metrics_with_lines(
    stats: &[IndividualMetrics],
    moving_average_window: u32,
) -> (result: (Option<GroupMetrics>, Vec<String>))
    ensures
        stats@.len() == 0 <==> result.0 is None,
        result.0 is None ==> result.1@.len() == 0,
        result.0 matches Some(group) ==> {
            &&& summarizes(group@, records_view(stats@), moving_average_window as nat)
            &&& aggregation_lines(texts(result.1@), group.summary.kind, stats@.len())
        },
{
    let mut lines: Vec<String> = Vec::new();
    if stats.len() == 0 {
        return (None, lines);
    }
    let now = SystemTime::now();
    let kind = determine_group_kind(stats);
    lines.push(count_message(kind, stats.len()));
    lines.push(log_event_at_time_with_kind("Completed determine_group_kind", now, kind));
    let throughput_metrics = calculate_throughput_metrics(stats);
    lines.push(log_event_at_time_with_kind("Completed calculate_throughput_metrics", now, kind));
    let latency_metrics = calculate_latency_metrics(stats);
    lines.push(log_event_at_time_with_kind("Completed calculate_latency_metrics", now, kind));
    let (time_series, mut series_steps) = calculate_group_time_series_with_lines(
        stats,
        moving_average_window,
    );
    let ghost steps = texts(series_steps@);
    let ghost before = texts(lines@);
    lines.append(&mut series_steps);
    proof {
        assert(texts(lines@) =~= before + steps);
        assert(texts(lines@).subrange(4, 11) =~= steps);
    }
    lines.push(log_event_at_time_with_kind("Completed calculate_group_time_series", now, kind));
    let (min_latency_value, max_latency_value) = calculate_min_max_latencies(
        stats,
        &time_series.2,
    );
    lines.push(log_event_at_time_with_kind("Completed calculate_min_max_latencies", now, kind));
    proof {
        lemma_latency_series_narrow(records_view(stats@), moving_average_window as nat);
    }
    let latency_std_dev: u128 = match std_dev(&time_series.2) {
        Some(deviation) => deviation,
        None => 0,
    };
    let summary = GroupMetricsSummary {
        kind,
        total_data_throughput: throughput_metrics.total_data_throughput,
        total_message_throughput: throughput_metrics.total_message_throughput,
        average_data_throughput: throughput_metrics.average_data_throughput,
        average_message_throughput: throughput_metrics.average_message_throughput,
        average_p50_latency: latency_metrics.p50_latency,
        average_p90_latency: latency_metrics.p90_latency,
        average_p95_latency: latency_metrics.p95_latency,
        average_p99_latency: latency_metrics.p99_latency,
        average_p999_latency: latency_metrics.p999_latency,
        average_p9999_latency: latency_metrics.p9999_latency,
        average_mean_latency: latency_metrics.mean_latency,
        average_median_latency: latency_metrics.median_latency,
        min_latency: min_latency_value,
        max_latency: max_latency_value,
        latency_std_dev,
    };
    lines.push(log_event_at_time_with_kind("Completed from_individual_metrics", now, kind));
    proof {
        assert(texts(lines@).subrange(4, 11) =~= steps);
    }
    (
        Some(
            GroupMetrics {
                summary,
                data_throughput_series: time_series.0,
                message_throughput_series: time_series.1,
                latency_series: time_series.2,
            },
        ),
        lines,
    )
}

/// Aggregates the records of the producers and the consumers of one
/// benchmark as [`from_producers_and_consumers_statistics`] does, and hands
/// back, with the aggregate, the lines that report the aggregation. The
/// lines name the kind that [`determine_group_kind`] gives the records, not
/// the kind of the aggregate, which is always mixed.
pub fn from_producers_and_consumers_statistics_with_lines(
    producers_stats: &[IndividualMetrics],
    consumers_stats: &[IndividualMetrics],
    moving_average_window: u32,
) -> (result: (Option<GroupMetrics>, Vec<String>))
    ensures
        producers_stats@.len() + consumers_stats@.len() == 0 <==> result.0 is None,
        result.0 is None ==> result.1@.len() == 0,
        result.0 matches Some(group) ==> {
            &&& summarizes_as(
                group@,
                records_view(producers_stats@) + records_view(consumers_stats@),
                moving_average_window as nat,
                GroupMetricsKind::ProducersAndConsumers,
            )
            &&& aggregation_lines(
                texts(result.1@),
                group_kind(records_view(producers_stats@) + records_view(consumers_stats@)),
                producers_stats@.len() + consumers_stats@.len(),
            )
        },
{
    let all = concatenate(producers_stats, consumers_stats);
    let (aggregate, lines) = from_individual_metrics_with_lines(
        all.as_slice(),
        moving_average_window,
    );
    match aggregate {
        Some(group) => {
            let mut summary = group;
            summary.summary.kind = GroupMetricsKind::ProducersAndConsumers;
            (Some(summary), lines)
        },
        None => (None, lines),
    }
}

} // verus!
