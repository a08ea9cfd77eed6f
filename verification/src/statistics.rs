//! Statistics of one series: its least and greatest sample and its standard
//! deviation.

use crate::reduce::{bounded_by, greatest, least, lemma_mean_bound, mean};
use crate::time_series::{span, span_mean};
use vstd::prelude::*;

verus! {

/// The samples of a series as numbers.
pub open spec fn values(series: Seq<u128>) -> Seq<nat> {
    span(series, 0, series.len() as int)
}

/// For each sample of a series, the square of its distance from the mean
/// of the series (the mean rounded down to a whole number).
pub open spec fn squared_deviations(series: Seq<u128>) -> Seq<nat> {
    Seq::new(
        series.len(),
        |i: int|
            {
                let deviation = series[i] - mean(values(series));
                (deviation * deviation) as nat
            },
    )
}

/// The variance of a series: the mean, rounded down, of the squared
/// deviations of its samples.
pub open spec fn variance(series: Seq<u128>) -> nat {
    mean(squared_deviations(series))
}

/// Whether `root` is the square root of `number`, rounded down.
pub open spec fn is_integer_root(root: nat, number: nat) -> bool {
    root * root <= number < (root + 1) * (root + 1)
}

/// Whether every sample of a series fits in 64 bits.
pub open spec fn narrow(series: Seq<u128>) -> bool {
    forall|i: int| 0 <= i < series.len() ==> #[trigger] series[i] <= u64::MAX
}

/// The least sample of a series; `None` for a series without samples.
pub fn min(series: &Vec<u128>) -> (result: Option<u128>)
    ensures
        series@.len() == 0 <==> result is None,
        result matches Some(value) ==> value == least(values(series@)),
{
    if series.len() == 0 {
        return None;
    }
    let ghost all = values(series@);
    let mut low: u128 = series[0];
    let mut i: usize = 1;
    proof {
        assert(all.take(1).last() == all[0]);
    }
    while i < series.len()
        invariant
            1 <= i <= series.len(),
            all == values(series@),
            low == least(all.take(i as int)),
        decreases series.len() - i,
    {
        let sample: u128 = series[i];
        proof {
            let next = all.take(i as int + 1);
            assert(next.drop_last() =~= all.take(i as int));
            assert(next.last() == sample);
        }
        if sample < low {
            low = sample;
        }
        i = i + 1;
    }
    proof {
        assert(all.take(i as int) =~= all);
    }
    Some(low)
}

/// The greatest sample of a series; `None` for a series without samples.
pub fn max(series: &Vec<u128>) -> (result: Option<u128>)
    ensures
        series@.len() == 0 <==> result is None,
        result matches Some(value) ==> value == greatest(values(series@)),
{
    if series.len() == 0 {
        return None;
    }
    let ghost all = values(series@);
    let mut high: u128 = series[0];
    let mut i: usize = 1;
    proof {
        assert(all.take(1).last() == all[0]);
    }
    while i < series.len()
        invariant
            1 <= i <= series.len(),
            all == values(series@),
            high == greatest(all.take(i as int)),
        decreases series.len() - i,
    {
        let sample: u128 = series[i];
        proof {
            let next = all.take(i as int + 1);
            assert(next.drop_last() =~= all.take(i as int));
            assert(next.last() == sample);
        }
        if sample > high {
            high = sample;
        }
        i = i + 1;
    }
    proof {
        assert(all.take(i as int) =~= all);
    }
    Some(high)
}

/// The square root of a number, rounded down.
pub fn integer_sqrt(number: u128) -> (root: u128)
    ensures
        is_integer_root(root as nat, number as nat),
        root <= u64::MAX,
{
    let mut low: u128 = 0;
    let mut high: u128 = 0x1_0000_0000_0000_0000;
    assert(high * high > number) by (nonlinear_arith)
        requires
            high == 0x1_0000_0000_0000_0000,
            number <= u128::MAX,
    ;
    while high - low > 1
        invariant
            low < high <= 0x1_0000_0000_0000_0000,
            low * low <= number < high * high,
        decreases high - low,
    {
        let middle: u128 = low + (high - low) / 2;
        assert(middle * middle <= u128::MAX) by (nonlinear_arith)
            requires
                0 <= middle <= 0xffff_ffff_ffff_ffff,
        ;
        if middle * middle <= number {
            low = middle;
        } else {
            high = middle;
        }
    }
    low
}

/// The standard deviation of a series, rounded down: the square root of its
/// variance. `None` for a series without samples.
///
/// The squares that the variance is made of are held in 128 bits, so each
/// sample has to fit in 64.
pub fn std_dev(series: &Vec<u128>) -> (result: Option<u128>)
    requires
        narrow(series@),
    ensures
        series@.len() == 0 <==> result is None,
        result matches Some(deviation) ==> is_integer_root(deviation as nat, variance(series@)),
{
    if series.len() == 0 {
        return None;
    }
    let center: u128 = span_mean(series, 0, series.len());
    proof {
        assert(bounded_by(values(series@), u64::MAX as nat));
        lemma_mean_bound(values(series@), u64::MAX as nat);
    }
    let mut squares: Vec<u128> = Vec::new();
    let mut i: usize = 0;
    while i < series.len()
        invariant
            i <= series.len(),
            narrow(series@),
            center == mean(values(series@)),
            center <= u64::MAX,
            squares@.len() == i,
            forall|k: int| 0 <= k < i ==> #[trigger] squares@[k] == squared_deviations(series@)[k],
        decreases series.len() - i,
    {
        let sample: u128 = series[i];
        assert(sample <= u64::MAX);
        let distance: u128 = if sample >= center {
            sample - center
        } else {
            center - sample
        };
        assert(distance * distance <= u128::MAX && distance * distance == (sample - center) * (
        sample - center)) by (nonlinear_arith)
            requires
                0 <= distance <= 0xffff_ffff_ffff_ffff,
                distance == sample - center || distance == center - sample,
        ;
        squares.push(distance * distance);
        i = i + 1;
    }
    let spread: u128 = span_mean(&squares, 0, squares.len());
    proof {
        assert(span(squares@, 0, squares@.len() as int) =~= squared_deviations(series@));
    }
    Some(integer_sqrt(spread))
}

} // verus!
