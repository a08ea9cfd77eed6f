//! What holds of every aggregation, whatever the records are.

use crate::group::{
    channel_list, channel_series, group_kind, group_series, latency_extent, summarizes,
    summarizes_as, Channel,
};
use crate::kinds::{kind_of_actor, GroupMetricsKind};
use crate::metrics::{GroupMetricsSummary, GroupMetricsView, IndividualMetricsView};
use crate::permutation::{
    is_permutation, lemma_greatest_permutation, lemma_least_permutation,
    lemma_mapped_permutation, lemma_mean_permutation, lemma_permutation_length,
    lemma_sum_permutation,
};
use crate::reduce::{
    bounded_by, greatest, least, lemma_greatest, lemma_least, lemma_least_unique,
    lemma_mean_bound, lemma_sum_concat, mean, scalar_column, scalar_value, sum, ScalarField,
};
use crate::statistics::is_integer_root;
use crate::time_series::{
    averaged, common_length, lengths, samples_at, smoothed, span, summed, window_start,
};
use vstd::prelude::*;

verus! {

/// The aggregate of a group of exactly 200 records has the kind of the
/// first actor of the group, and the aggregate of a group of any other size
/// is that of a mixed group, even where all its actors are of one kind.
pub proof fn law_classification_threshold(
    records: Seq<IndividualMetricsView>,
    window: nat,
    group: GroupMetricsView,
)
    requires
        summarizes(group, records, window),
    ensures
        records.len() == 200 ==> group.summary.kind == kind_of_actor(
            records[0].summary.actor_kind,
        ),
        records.len() != 200 ==> group.summary.kind == GroupMetricsKind::ProducersAndConsumers,
{
}

/// While there is a record, the least and the greatest latency of a group
/// are those of its records, whatever the samples of its latency series
/// are.
pub proof fn law_extent_ignores_series(
    records: Seq<IndividualMetricsView>,
    series: Seq<u128>,
    other: Seq<u128>,
)
    requires
        records.len() > 0,
    ensures
        latency_extent(records, series) == latency_extent(records, other),
{
}

/// The aggregate of a single record has the least and the greatest latency
/// of that record, whatever its series are.
pub proof fn law_extent_of_single_record(
    records: Seq<IndividualMetricsView>,
    window: nat,
    kind: GroupMetricsKind,
    group: GroupMetricsView,
)
    requires
        records.len() == 1,
        summarizes_as(group, records, window, kind),
    ensures
        group.summary.min_latency == records[0].summary.min_latency,
        group.summary.max_latency == records[0].summary.max_latency,
{
}

/// The total throughput of a group is the sum of the throughput of its
/// records, and its average throughput is that total divided by the number
/// of records: the mean of the throughput of the records.
pub proof fn law_totals_and_averages(
    records: Seq<IndividualMetricsView>,
    window: nat,
    kind: GroupMetricsKind,
    group: GroupMetricsView,
)
    requires
        records.len() > 0,
        summarizes_as(group, records, window, kind),
    ensures
        group.summary.total_data_throughput == sum(
            scalar_column(records, ScalarField::DataThroughput),
        ),
        group.summary.total_message_throughput == sum(
            scalar_column(records, ScalarField::MessageThroughput),
        ),
        group.summary.average_data_throughput == (group.summary.total_data_throughput as int) / (
        records.len() as int),
        group.summary.average_message_throughput == (
        group.summary.total_message_throughput as int) / (records.len() as int),
        group.summary.average_data_throughput == mean(
            scalar_column(records, ScalarField::DataThroughput),
        ),
        group.summary.average_message_throughput == mean(
            scalar_column(records, ScalarField::MessageThroughput),
        ),
{
}

/// Each latency result of a group is the mean of that result over its
/// records: an average of the percentiles of the actors.
pub proof fn law_latency_averages(
    records: Seq<IndividualMetricsView>,
    window: nat,
    kind: GroupMetricsKind,
    group: GroupMetricsView,
)
    requires
        records.len() > 0,
        summarizes_as(group, records, window, kind),
    ensures
        group.summary.average_p50_latency == sum(scalar_column(records, ScalarField::P50Latency))
            / records.len(),
        group.summary.average_p90_latency == sum(scalar_column(records, ScalarField::P90Latency))
            / records.len(),
        group.summary.average_p95_latency == sum(scalar_column(records, ScalarField::P95Latency))
            / records.len(),
        group.summary.average_p99_latency == sum(scalar_column(records, ScalarField::P99Latency))
            / records.len(),
        group.summary.average_p999_latency == sum(
            scalar_column(records, ScalarField::P999Latency),
        ) / records.len(),
        group.summary.average_p9999_latency == sum(
            scalar_column(records, ScalarField::P9999Latency),
        ) / records.len(),
        group.summary.average_mean_latency == sum(
            scalar_column(records, ScalarField::MeanLatency),
        ) / records.len(),
        group.summary.average_median_latency == sum(
            scalar_column(records, ScalarField::MedianLatency),
        ) / records.len(),
{
}

/// A number has one square root rounded down.
pub proof fn lemma_integer_root_unique(first: nat, second: nat, number: nat)
    requires
        is_integer_root(first, number),
        is_integer_root(second, number),
    ensures
        first == second,
{
    assert(first == second) by (nonlinear_arith)
        requires
            first * first <= number < (first + 1) * (first + 1),
            second * second <= number < (second + 1) * (second + 1),
    ;
}

/// The values of a scalar result in two orderings of the same records are
/// two orderings of the same numbers.
pub proof fn lemma_column_permutation(
    a: Seq<IndividualMetricsView>,
    b: Seq<IndividualMetricsView>,
    field: ScalarField,
)
    requires
        is_permutation(a, b),
    ensures
        is_permutation(scalar_column(a, field), scalar_column(b, field)),
{
    let read = |record: IndividualMetricsView| scalar_value(record.summary, field) as nat;
    lemma_mapped_permutation(a, b, read);
    assert(scalar_column(a, field) =~= a.map_values(read));
    assert(scalar_column(b, field) =~= b.map_values(read));
}

/// Combining the series of a channel gives the same series for every
/// ordering of the records.
pub proof fn lemma_combined_permutation(
    a: Seq<IndividualMetricsView>,
    b: Seq<IndividualMetricsView>,
    channel: Channel,
)
    requires
        is_permutation(a, b),
    ensures
        summed(channel_list(a, channel)) == summed(channel_list(b, channel)),
        averaged(channel_list(a, channel)) == averaged(channel_list(b, channel)),
{
    let list_a = channel_list(a, channel);
    let list_b = channel_list(b, channel);
    let length = |record: IndividualMetricsView| channel_series(record, channel).len();
    lemma_mapped_permutation(a, b, length);
    assert(lengths(list_a) =~= a.map_values(length));
    assert(lengths(list_b) =~= b.map_values(length));
    lemma_least_permutation(lengths(list_a), lengths(list_b));
    assert(common_length(list_a) == common_length(list_b));
    assert forall|position: int| 0 <= position < common_length(list_a) implies sum(
        samples_at(list_a, position),
    ) == sum(samples_at(list_b, position)) && mean(samples_at(list_a, position)) == mean(
        samples_at(list_b, position),
    ) by {
        let sample = |record: IndividualMetricsView|
            channel_series(record, channel)[position] as nat;
        lemma_mapped_permutation(a, b, sample);
        assert(samples_at(list_a, position) =~= a.map_values(sample));
        assert(samples_at(list_b, position) =~= b.map_values(sample));
        lemma_sum_permutation(samples_at(list_a, position), samples_at(list_b, position));
        lemma_mean_permutation(samples_at(list_a, position), samples_at(list_b, position));
    }
    assert(summed(list_a) =~= summed(list_b));
    assert(averaged(list_a) =~= averaged(list_b));
}

/// The order of the records does not matter to the aggregate: two
/// aggregates of the same records in two orders, smoothed over the same
/// window and classified alike, are equal in every number and in every
/// sample of their series.
pub proof fn law_order_independence(
    a: Seq<IndividualMetricsView>,
    b: Seq<IndividualMetricsView>,
    window: nat,
    kind: GroupMetricsKind,
    first: GroupMetricsView,
    second: GroupMetricsView,
)
    requires
        is_permutation(a, b),
        summarizes_as(first, a, window, kind),
        summarizes_as(second, b, window, kind),
    ensures
        first == second,
{
    lemma_permutation_length(a, b);
    lemma_column_permutation(a, b, ScalarField::DataThroughput);
    lemma_sum_permutation(
        scalar_column(a, ScalarField::DataThroughput),
        scalar_column(b, ScalarField::DataThroughput),
    );
    lemma_column_permutation(a, b, ScalarField::MessageThroughput);
    lemma_sum_permutation(
        scalar_column(a, ScalarField::MessageThroughput),
        scalar_column(b, ScalarField::MessageThroughput),
    );
    lemma_column_permutation(a, b, ScalarField::P50Latency);
    lemma_mean_permutation(
        scalar_column(a, ScalarField::P50Latency),
        scalar_column(b, ScalarField::P50Latency),
    );
    lemma_column_permutation(a, b, ScalarField::P90Latency);
    lemma_mean_permutation(
        scalar_column(a, ScalarField::P90Latency),
        scalar_column(b, ScalarField::P90Latency),
    );
    lemma_column_permutation(a, b, ScalarField::P95Latency);
    lemma_mean_permutation(
        scalar_column(a, ScalarField::P95Latency),
        scalar_column(b, ScalarField::P95Latency),
    );
    lemma_column_permutation(a, b, ScalarField::P99Latency);
    lemma_mean_permutation(
        scalar_column(a, ScalarField::P99Latency),
        scalar_column(b, ScalarField::P99Latency),
    );
    lemma_column_permutation(a, b, ScalarField::P999Latency);
    lemma_mean_permutation(
        scalar_column(a, ScalarField::P999Latency),
        scalar_column(b, ScalarField::P999Latency),
    );
    lemma_column_permutation(a, b, ScalarField::P9999Latency);
    lemma_mean_permutation(
        scalar_column(a, ScalarField::P9999Latency),
        scalar_column(b, ScalarField::P9999Latency),
    );
    lemma_column_permutation(a, b, ScalarField::MeanLatency);
    lemma_mean_permutation(
        scalar_column(a, ScalarField::MeanLatency),
        scalar_column(b, ScalarField::MeanLatency),
    );
    lemma_column_permutation(a, b, ScalarField::MedianLatency);
    lemma_mean_permutation(
        scalar_column(a, ScalarField::MedianLatency),
        scalar_column(b, ScalarField::MedianLatency),
    );
    lemma_column_permutation(a, b, ScalarField::MinLatency);
    lemma_least_permutation(
        scalar_column(a, ScalarField::MinLatency),
        scalar_column(b, ScalarField::MinLatency),
    );
    lemma_column_permutation(a, b, ScalarField::MaxLatency);
    lemma_greatest_permutation(
        scalar_column(a, ScalarField::MaxLatency),
        scalar_column(b, ScalarField::MaxLatency),
    );
    lemma_combined_permutation(a, b, Channel::DataThroughput);
    lemma_combined_permutation(a, b, Channel::MessageThroughput);
    lemma_combined_permutation(a, b, Channel::Latency);
    assert(group_series(a, window) == group_series(b, window));
    assert(first.latency_series == second.latency_series);
    assert(latency_extent(a, first.latency_series) == latency_extent(b, second.latency_series));
    if first.latency_series.len() > 0 {
        lemma_integer_root_unique(
            first.summary.latency_std_dev as nat,
            second.summary.latency_std_dev as nat,
            crate::statistics::variance(first.latency_series),
        );
    }
    assert(first.summary == second.summary);
}

/// The order of the records matters to nothing but the kind of a group:
/// the aggregates of the same records in two orders are equal in every
/// number and in every sample of their series. They are of one kind too,
/// unless there are exactly 200 records and the two orders begin with
/// actors of different kinds.
pub proof fn law_order_matters_to_kind_only(
    a: Seq<IndividualMetricsView>,
    b: Seq<IndividualMetricsView>,
    window: nat,
    first: GroupMetricsView,
    second: GroupMetricsView,
)
    requires
        is_permutation(a, b),
        summarizes(first, a, window),
        summarizes(second, b, window),
    ensures
        first == (GroupMetricsView {
            summary: GroupMetricsSummary {
                kind: first.summary.kind,
                ..second.summary
            },
            ..second
        }),
        a.len() != 200 || a[0].summary.actor_kind == b[0].summary.actor_kind ==> first == second,
{
    lemma_permutation_length(a, b);
    let relabelled = GroupMetricsView {
        summary: GroupMetricsSummary {
            kind: first.summary.kind,
            ..second.summary
        },
        ..second
    };
    assert(summarizes_as(relabelled, b, window, first.summary.kind));
    law_order_independence(a, b, window, first.summary.kind, first, relabelled);
}

/// The records of a group have one aggregate: what
/// [`crate::group::from_individual_metrics`] returns for them is the only
/// value that its contract admits.
pub proof fn law_aggregate_is_unique(
    records: Seq<IndividualMetricsView>,
    window: nat,
    first: GroupMetricsView,
    second: GroupMetricsView,
)
    requires
        summarizes(first, records, window),
        summarizes(second, records, window),
    ensures
        first == second,
{
    law_order_independence(records, records, window, group_kind(records), first, second);
}

/// The aggregate of a mixed group differs from the aggregate of the same
/// records as one group in nothing but the kind.
pub proof fn law_mixed_group_differs_in_kind_only(
    records: Seq<IndividualMetricsView>,
    window: nat,
    mixed: GroupMetricsView,
    plain: GroupMetricsView,
)
    requires
        summarizes_as(mixed, records, window, GroupMetricsKind::ProducersAndConsumers),
        summarizes(plain, records, window),
    ensures
        mixed.summary.kind == GroupMetricsKind::ProducersAndConsumers,
        mixed == (GroupMetricsView {
            summary: GroupMetricsSummary {
                kind: GroupMetricsKind::ProducersAndConsumers,
                ..plain.summary
            },
            ..plain
        }),
{
    let relabelled = GroupMetricsView {
        summary: GroupMetricsSummary {
            kind: GroupMetricsKind::ProducersAndConsumers,
            ..plain.summary
        },
        ..plain
    };
    assert(summarizes_as(relabelled, records, window, GroupMetricsKind::ProducersAndConsumers));
    law_order_independence(
        records,
        records,
        window,
        GroupMetricsKind::ProducersAndConsumers,
        mixed,
        relabelled,
    );
}

/// The total of a scalar result over the producers followed by the
/// consumers is the total over the producers plus the total over the
/// consumers.
pub proof fn law_totals_of_mixed_group_add_up(
    producers: Seq<IndividualMetricsView>,
    consumers: Seq<IndividualMetricsView>,
    field: ScalarField,
)
    ensures
        sum(scalar_column(producers + consumers, field)) == sum(scalar_column(producers, field))
            + sum(scalar_column(consumers, field)),
{
    assert(scalar_column(producers + consumers, field) =~= scalar_column(producers, field)
        + scalar_column(consumers, field));
    lemma_sum_concat(scalar_column(producers, field), scalar_column(consumers, field));
}

/// The sum of `values` that are all equal to `value`.
pub proof fn lemma_sum_of_equal_values(values: Seq<nat>, value: nat)
    requires
        forall|i: int| 0 <= i < values.len() ==> #[trigger] values[i] == value,
    ensures
        sum(values) == values.len() * value,
    decreases values.len(),
{
    if values.len() > 0 {
        lemma_sum_of_equal_values(values.drop_last(), value);
        assert(values.last() == value);
        assert((values.len() - 1) * value + value == values.len() * value) by (nonlinear_arith);
    }
}

/// The mean of values that are all equal is that value.
pub proof fn lemma_mean_of_equal_values(values: Seq<nat>, value: nat)
    requires
        values.len() > 0,
        forall|i: int| 0 <= i < values.len() ==> #[trigger] values[i] == value,
    ensures
        mean(values) == value,
{
    lemma_sum_of_equal_values(values, value);
    let n = values.len() as int;
    assert((n * value) / n == value) by (nonlinear_arith)
        requires
            n > 0,
    ;
}

/// Series of one length are combined into a series of that length.
pub proof fn law_combination_keeps_length(list: Seq<Seq<u64>>, length: nat)
    requires
        list.len() > 0,
        forall|i: int| 0 <= i < list.len() ==> (#[trigger] list[i]).len() == length,
    ensures
        summed(list).len() == length,
        averaged(list).len() == length,
{
    let all = lengths(list);
    assert(all[0] == length);
    assert(all.contains(length));
    lemma_least_unique(all, length);
}

/// The mean of series that are all alike is that series.
pub proof fn law_mean_of_identical_series(list: Seq<Seq<u64>>, series: Seq<u64>)
    requires
        list.len() > 0,
        forall|i: int| 0 <= i < list.len() ==> #[trigger] list[i] == series,
    ensures
        averaged(list).len() == series.len(),
        forall|position: int|
            0 <= position < series.len() ==> #[trigger] averaged(list)[position]
                == series[position],
{
    law_combination_keeps_length(list, series.len());
    assert forall|position: int| 0 <= position < series.len() implies #[trigger] averaged(
        list,
    )[position] == series[position] by {
        lemma_mean_of_equal_values(samples_at(list, position), series[position] as nat);
    }
}

/// Smoothing keeps the length of a series, and smoothing over a window of
/// one sample, or of none, keeps the series.
pub proof fn law_smoothing_keeps_length(series: Seq<u128>, window: nat)
    ensures
        smoothed(series, window).len() == series.len(),
        window <= 1 ==> smoothed(series, window) == series,
{
    if window <= 1 {
        assert forall|position: int| 0 <= position < series.len() implies smoothed(
            series,
            window,
        )[position] == series[position] by {
            let part = span(series, window_start(position, window), position + 1);
            lemma_mean_of_equal_values(part, series[position] as nat);
        }
        assert(smoothed(series, window) =~= series);
    }
}

/// A sum of `n` values, none below `floor`, is at least `n * floor`.
pub proof fn lemma_sum_floor(values: Seq<nat>, floor: nat)
    requires
        forall|i: int| 0 <= i < values.len() ==> #[trigger] values[i] >= floor,
    ensures
        sum(values) >= values.len() * floor,
    decreases values.len(),
{
    if values.len() > 0 {
        lemma_sum_floor(values.drop_last(), floor);
        assert(values.last() >= floor);
        assert((values.len() - 1) * floor + floor == values.len() * floor) by (nonlinear_arith);
    }
}

/// The mean of values lies between the least and the greatest of them.
pub proof fn law_mean_within_extent(values: Seq<nat>)
    requires
        values.len() > 0,
    ensures
        least(values) <= mean(values) <= greatest(values),
{
    lemma_least(values);
    lemma_greatest(values);
    assert(bounded_by(values, greatest(values)));
    lemma_mean_bound(values, greatest(values));
    lemma_sum_floor(values, least(values));
    let n = values.len() as int;
    let total = sum(values) as int;
    let low = least(values) as int;
    assert(low <= total / n) by (nonlinear_arith)
        requires
            n > 0,
            total >= n * low,
    ;
}

} // verus!
