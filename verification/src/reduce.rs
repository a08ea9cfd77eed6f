//! Reductions of a sequence of numbers (its sum, its mean, its least and
//! its greatest value) and of one scalar result over a collection of
//! records.

use crate::metrics::{
    records_view, IndividualMetrics, IndividualMetricsSummary, IndividualMetricsView,
};
use vstd::prelude::*;

verus! {

/// The sum of all values.
pub open spec fn sum(values: Seq<nat>) -> nat
    decreases values.len(),
{
    if values.len() == 0 {
        0
    } else {
        sum(values.drop_last()) + values.last()
    }
}

/// The mean of all values, rounded down to a whole number. It is 0 where
/// there is no value.
pub open spec fn mean(values: Seq<nat>) -> nat {
    if values.len() == 0 {
        0
    } else {
        sum(values) / values.len()
    }
}

/// The least of all values. It is 0 where there is no value.
pub open spec fn least(values: Seq<nat>) -> nat
    decreases values.len(),
{
    if values.len() == 0 {
        0
    } else if values.len() == 1 {
        values.last()
    } else {
        let before = least(values.drop_last());
        if values.last() < before {
            values.last()
        } else {
            before
        }
    }
}

/// The greatest of all values. It is 0 where there is no value.
pub open spec fn greatest(values: Seq<nat>) -> nat
    decreases values.len(),
{
    if values.len() == 0 {
        0
    } else if values.len() == 1 {
        values.last()
    } else {
        let before = greatest(values.drop_last());
        if values.last() > before {
            values.last()
        } else {
            before
        }
    }
}

/// Whether no value exceeds `bound`.
pub open spec fn bounded_by(values: Seq<nat>, bound: nat) -> bool {
    forall|i: int| 0 <= i < values.len() ==> #[trigger] values[i] <= bound
}

/// A sum of `n` values, none above `bound`, is at most `n * bound`.
pub proof fn lemma_sum_bound(values: Seq<nat>, bound: nat)
    requires
        bounded_by(values, bound),
    ensures
        sum(values) <= values.len() * bound,
    decreases values.len(),
{
    if values.len() > 0 {
        lemma_sum_bound(values.drop_last(), bound);
        assert(values.last() <= bound);
        assert((values.len() - 1) * bound + bound == values.len() * bound) by (nonlinear_arith);
    }
}

/// The mean of values, none above `bound`, is not above `bound`.
pub proof fn lemma_mean_bound(values: Seq<nat>, bound: nat)
    requires
        bounded_by(values, bound),
    ensures
        mean(values) <= bound,
{
    if values.len() > 0 {
        lemma_sum_bound(values, bound);
        let n = values.len() as int;
        let total = sum(values) as int;
        assert(total / n <= bound) by (nonlinear_arith)
            requires
                n > 0,
                0 <= total <= n * bound,
        ;
    }
}

/// Taking one value out lowers the sum by that value.
pub proof fn lemma_sum_remove(values: Seq<nat>, index: int)
    requires
        0 <= index < values.len(),
    ensures
        sum(values) == sum(values.remove(index)) + values[index],
    decreases values.len(),
{
    if index == values.len() - 1 {
        assert(values.remove(index) =~= values.drop_last());
    } else {
        lemma_sum_remove(values.drop_last(), index);
        assert(values.remove(index).drop_last() =~= values.drop_last().remove(index));
        assert(values.remove(index).last() == values.last());
    }
}

/// The sum over a concatenation is the sum of the two sums.
pub proof fn lemma_sum_concat(front: Seq<nat>, back: Seq<nat>)
    ensures
        sum(front + back) == sum(front) + sum(back),
    decreases back.len(),
{
    if back.len() == 0 {
        assert(front + back =~= front);
    } else {
        assert((front + back).drop_last() =~= front + back.drop_last());
        lemma_sum_concat(front, back.drop_last());
    }
}

/// The least value occurs among the values and none is below it.
pub proof fn lemma_least(values: Seq<nat>)
    requires
        values.len() > 0,
    ensures
        values.contains(least(values)),
        forall|i: int| 0 <= i < values.len() ==> least(values) <= #[trigger] values[i],
    decreases values.len(),
{
    let last = values.len() - 1;
    if values.len() == 1 {
        assert(values[last] == least(values));
    } else {
        let before = values.drop_last();
        lemma_least(before);
        let at = choose|i: int| 0 <= i < before.len() && before[i] == least(before);
        assert(before[at] == values[at]);
        if values.last() < least(before) {
            assert(values[last] == least(values));
        } else {
            assert(values[at] == least(values));
        }
        assert forall|i: int| 0 <= i < values.len() implies least(values)
            <= #[trigger] values[i] by {
            if i < last {
                assert(before[i] == values[i]);
            }
        }
    }
}

/// The greatest value occurs among the values and none is above it.
pub proof fn lemma_greatest(values: Seq<nat>)
    requires
        values.len() > 0,
    ensures
        values.contains(greatest(values)),
        forall|i: int| 0 <= i < values.len() ==> greatest(values) >= #[trigger] values[i],
    decreases values.len(),
{
    let last = values.len() - 1;
    if values.len() == 1 {
        assert(values[last] == greatest(values));
    } else {
        let before = values.drop_last();
        lemma_greatest(before);
        let at = choose|i: int| 0 <= i < before.len() && before[i] == greatest(before);
        assert(before[at] == values[at]);
        if values.last() > greatest(before) {
            assert(values[last] == greatest(values));
        } else {
            assert(values[at] == greatest(values));
        }
        assert forall|i: int| 0 <= i < values.len() implies greatest(values)
            >= #[trigger] values[i] by {
            if i < last {
                assert(before[i] == values[i]);
            }
        }
    }
}

/// A value that occurs among the values and that none of them is below is
/// their least value.
pub proof fn lemma_least_unique(values: Seq<nat>, value: nat)
    requires
        values.contains(value),
        forall|i: int| 0 <= i < values.len() ==> value <= #[trigger] values[i],
    ensures
        value == least(values),
{
    lemma_least(values);
    let at = choose|i: int| 0 <= i < values.len() && values[i] == least(values);
    let own = choose|i: int| 0 <= i < values.len() && values[i] == value;
    assert(value <= values[at]);
    assert(least(values) <= values[own]);
}

/// A value that occurs among the values and that none of them is above is
/// their greatest value.
pub proof fn lemma_greatest_unique(values: Seq<nat>, value: nat)
    requires
        values.contains(value),
        forall|i: int| 0 <= i < values.len() ==> value >= #[trigger] values[i],
    ensures
        value == greatest(values),
{
    lemma_greatest(values);
    let at = choose|i: int| 0 <= i < values.len() && values[i] == greatest(values);
    let own = choose|i: int| 0 <= i < values.len() && values[i] == value;
    assert(value >= values[at]);
    assert(greatest(values) >= values[own]);
}

/// Names one scalar result of an actor.
#[derive(Clone, Copy, Debug, PartialEq, Eq, Structural)]
pub enum ScalarField {
    DataThroughput,
    MessageThroughput,
    P50Latency,
    P90Latency,
    P95Latency,
    P99Latency,
    P999Latency,
    P9999Latency,
    MeanLatency,
    MedianLatency,
    MinLatency,
    MaxLatency,
    MessageBatches,
}

/// The scalar result of a summary that `field` names.
pub open spec fn scalar_value(summary: IndividualMetricsSummary, field: ScalarField) -> u64 {
    match field {
        ScalarField::DataThroughput => summary.data_throughput,
        ScalarField::MessageThroughput => summary.message_throughput,
        ScalarField::P50Latency => summary.p50_latency,
        ScalarField::P90Latency => summary.p90_latency,
        ScalarField::P95Latency => summary.p95_latency,
        ScalarField::P99Latency => summary.p99_latency,
        ScalarField::P999Latency => summary.p999_latency,
        ScalarField::P9999Latency => summary.p9999_latency,
        ScalarField::MeanLatency => summary.mean_latency,
        ScalarField::MedianLatency => summary.median_latency,
        ScalarField::MinLatency => summary.min_latency,
        ScalarField::MaxLatency => summary.max_latency,
        ScalarField::MessageBatches => summary.message_batches,
    }
}

/// The values of one scalar result, record by record.
pub open spec fn scalar_column(
    records: Seq<IndividualMetricsView>,
    field: ScalarField,
) -> Seq<nat> {
    Seq::new(records.len(), |i: int| scalar_value(records[i].summary, field) as nat)
}

/// Reads the scalar result that `field` names off a summary.
pub fn scalar_of(summary: &IndividualMetricsSummary, field: ScalarField) -> (value: u64)
    ensures
        value == scalar_value(*summary, field),
{
    match field {
        ScalarField::DataThroughput => summary.data_throughput,
        ScalarField::MessageThroughput => summary.message_throughput,
        ScalarField::P50Latency => summary.p50_latency,
        ScalarField::P90Latency => summary.p90_latency,
        ScalarField::P95Latency => summary.p95_latency,
        ScalarField::P99Latency => summary.p99_latency,
        ScalarField::P999Latency => summary.p999_latency,
        ScalarField::P9999Latency => summary.p9999_latency,
        ScalarField::MeanLatency => summary.mean_latency,
        ScalarField::MedianLatency => summary.median_latency,
        ScalarField::MinLatency => summary.min_latency,
        ScalarField::MaxLatency => summary.max_latency,
        ScalarField::MessageBatches => summary.message_batches,
    }
}

/// Adds one scalar result up over all records.
pub fn scalar_total(stats: &[IndividualMetrics], field: ScalarField) -> (total: u128)
    ensures
        total == sum(scalar_column(records_view(stats@), field)),
{
    let ghost column = scalar_column(records_view(stats@), field);
    let mut total: u128 = 0;
    let mut i: usize = 0;
    while i < stats.len()
        invariant
            i <= stats.len(),
            column == scalar_column(records_view(stats@), field),
            total == sum(column.take(i as int)),
        decreases stats.len() - i,
    {
        let value: u64 = scalar_of(&stats[i].summary, field);
        proof {
            let next = column.take(i as int + 1);
            assert(next.drop_last() =~= column.take(i as int));
            assert(next.last() == value);
            assert(bounded_by(next, u64::MAX as nat));
            lemma_sum_bound(next, u64::MAX as nat);
            assert(next.len() * u64::MAX <= u64::MAX * u64::MAX) by (nonlinear_arith)
                requires
                    next.len() <= u64::MAX,
            ;
        }
        total = total + value as u128;
        i = i + 1;
    }
    proof {
        assert(column.take(i as int) =~= column);
    }
    total
}

/// The mean of one scalar result over all records, rounded down, and 0
/// where there is no record.
pub fn scalar_mean(stats: &[IndividualMetrics], field: ScalarField) -> (average: u128)
    ensures
        average == mean(scalar_column(records_view(stats@), field)),
{
    if stats.len() == 0 {
        0
    } else {
        let total: u128 = scalar_total(stats, field);
        total / (stats.len() as u128)
    }
}

/// The least and the greatest value of one scalar result over all records;
/// `None` where there is no record.
pub fn scalar_extent(
    stats: &[IndividualMetrics],
    field: ScalarField,
) -> (extent: Option<(u64, u64)>)
    ensures
        stats@.len() == 0 <==> extent is None,
        extent matches Some((low, high)) ==> {
            &&& low == least(scalar_column(records_view(stats@), field))
            &&& high == greatest(scalar_column(records_view(stats@), field))
        },
{
    if stats.len() == 0 {
        return None;
    }
    let ghost column = scalar_column(records_view(stats@), field);
    let first: u64 = scalar_of(&stats[0].summary, field);
    let mut low: u64 = first;
    let mut high: u64 = first;
    let mut i: usize = 1;
    proof {
        assert(column.take(1).last() == column[0]);
    }
    while i < stats.len()
        invariant
            1 <= i <= stats.len(),
            column == scalar_column(records_view(stats@), field),
            low == least(column.take(i as int)),
            high == greatest(column.take(i as int)),
        decreases stats.len() - i,
    {
        let value: u64 = scalar_of(&stats[i].summary, field);
        proof {
            let next = column.take(i as int + 1);
            assert(next.drop_last() =~= column.take(i as int));
            assert(next.last() == value);
        }
        if value < low {
            low = value;
        }
        if value > high {
            high = value;
        }
        i = i + 1;
    }
    proof {
        assert(column.take(i as int) =~= column);
    }
    Some((low, high))
}

} // verus!
