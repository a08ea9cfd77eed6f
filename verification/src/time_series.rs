//! Combination of the series of several actors into one series, position by
//! position, and smoothing of a series by a moving average.
//!
//! Series of different lengths are combined over the positions that all of
//! them have: the combined series is as long as the shortest of them.

use crate::reduce::{bounded_by, least, lemma_least, lemma_mean_bound, lemma_sum_bound, mean, sum};
use vstd::arithmetic::div_mod::lemma_hoist_over_denominator;
use vstd::prelude::*;

verus! {

/// The mathematical values of a list of series, in its order.
pub open spec fn series_list(series: Seq<Vec<u64>>) -> Seq<Seq<u64>> {
    Seq::new(series.len(), |i: int| series[i]@)
}

/// The lengths of the series of a list, in its order.
pub open spec fn lengths(list: Seq<Seq<u64>>) -> Seq<nat> {
    Seq::new(list.len(), |i: int| list[i].len())
}

/// The number of positions that every series of a list has: the length of
/// the shortest, and 0 for a list without series.
pub open spec fn common_length(list: Seq<Seq<u64>>) -> nat {
    least(lengths(list))
}

/// The samples that the series of a list have at one position, in the
/// order of the list.
pub open spec fn samples_at(list: Seq<Seq<u64>>, position: int) -> Seq<nat> {
    Seq::new(list.len(), |i: int| list[i][position] as nat)
}

/// The series whose sample at each common position is the sum of the
/// samples that the series of the list have there.
pub open spec fn summed(list: Seq<Seq<u64>>) -> Seq<u128> {
    Seq::new(common_length(list), |position: int| sum(samples_at(list, position)) as u128)
}

/// The series whose sample at each common position is the mean, rounded
/// down, of the samples that the series of the list have there.
pub open spec fn averaged(list: Seq<Seq<u64>>) -> Seq<u128> {
    Seq::new(common_length(list), |position: int| mean(samples_at(list, position)) as u128)
}

/// The samples of a series from position `start` up to, not including,
/// position `end`.
pub open spec fn span(series: Seq<u128>, start: int, end: int) -> Seq<nat> {
    Seq::new((end - start) as nat, |k: int| series[start + k] as nat)
}

/// The first position of the window that ends at `position`. A window holds
/// `window` samples, or as many as the series has up to `position` where
/// those are fewer; a window of 0 counts as a window of 1.
pub open spec fn window_start(position: int, window: nat) -> int {
    if window <= 1 {
        position
    } else if position + 1 >= window {
        position + 1 - window
    } else {
        0
    }
}

/// The moving average of a series: the sample at each position is the mean,
/// rounded down, of the window that ends there.
pub open spec fn smoothed(series: Seq<u128>, window: nat) -> Seq<u128> {
    Seq::new(
        series.len(),
        |position: int| mean(span(series, window_start(position, window), position + 1)) as u128,
    )
}

/// Every common position lies within every series of the list.
pub proof fn lemma_common_length(list: Seq<Seq<u64>>)
    ensures
        forall|i: int| 0 <= i < list.len() ==> common_length(list) <= (#[trigger] list[i]).len(),
{
    if list.len() > 0 {
        lemma_least(lengths(list));
        assert forall|i: int| 0 <= i < list.len() implies common_length(list) <= (
        #[trigger] list[i]).len() by {
            assert(lengths(list)[i] == list[i].len());
        }
    }
}

/// Combines series position by position, by sum or by mean.
pub struct TimeSeriesCalculator;

impl TimeSeriesCalculator {
    /// The number of positions that every one of the series has.
    pub fn common_len(series: &[Vec<u64>]) -> (length: usize)
        ensures
            length == common_length(series_list(series@)),
    {
        if series.len() == 0 {
            return 0;
        }
        let ghost all = lengths(series_list(series@));
        let mut length: usize = series[0].len();
        let mut i: usize = 1;
        proof {
            assert(all.take(1).last() == all[0]);
        }
        while i < series.len()
            invariant
                1 <= i <= series.len(),
                all == lengths(series_list(series@)),
                length == least(all.take(i as int)),
            decreases series.len() - i,
        {
            let own: usize = series[i].len();
            proof {
                let next = all.take(i as int + 1);
                assert(next.drop_last() =~= all.take(i as int));
                assert(next.last() == own);
            }
            if own < length {
                length = own;
            }
            i = i + 1;
        }
        proof {
            assert(all.take(i as int) =~= all);
        }
        length
    }

    /// The sum of the samples that the series have at one common position.
    pub fn total_at(series: &[Vec<u64>], position: usize) -> (total: u128)
        requires
            position < common_length(series_list(series@)),
        ensures
            total == sum(samples_at(series_list(series@), position as int)),
    {
        let ghost list = series_list(series@);
        let ghost column = samples_at(list, position as int);
        let mut total: u128 = 0;
        let mut i: usize = 0;
        proof {
            lemma_common_length(list);
        }
        while i < series.len()
            invariant
                i <= series.len(),
                list == series_list(series@),
                column == samples_at(list, position as int),
                forall|k: int| 0 <= k < list.len() ==> position < (#[trigger] list[k]).len(),
                total == sum(column.take(i as int)),
            decreases series.len() - i,
        {
            assert(position < list[i as int].len());
            let value: u64 = series[i][position];
            proof {
                let next = column.take(i as int + 1);
                assert(next.drop_last() =~= column.take(i as int));
                assert(next.last() == value);
                assert(bounded_by(next, u64::MAX as nat));
                lemma_sum_bound(next, u64::MAX as nat);
                assert(next.len() * u64::MAX <= u64::MAX * u64::MAX) by (nonlinear_arith)
                    requires
                        next.len() <= u64::MAX,
                ;
            }
            total = total + value as u128;
            i = i + 1;
        }
        proof {
            assert(column.take(i as int) =~= column);
        }
        total
    }

    /// Combines the series by adding up, at each common position, the
    /// samples that they have there.
    pub fn aggregate_sum(series: &[Vec<u64>]) -> (combined: Vec<u128>)
        ensures
            combined@ == summed(series_list(series@)),
    {
        let length: usize = Self::common_len(series);
        let mut combined: Vec<u128> = Vec::new();
        let mut position: usize = 0;
        while position < length
            invariant
                position <= length,
                length == common_length(series_list(series@)),
                combined@ == summed(series_list(series@)).take(position as int),
            decreases length - position,
        {
            let total: u128 = Self::total_at(series, position);
            combined.push(total);
            position = position + 1;
        }
        combined
    }

    /// Combines the series by taking, at each common position, the mean of
    /// the samples that they have there, rounded down.
    pub fn aggregate_avg(series: &[Vec<u64>]) -> (combined: Vec<u128>)
        ensures
            combined@ == averaged(series_list(series@)),
    {
        let length: usize = Self::common_len(series);
        let mut combined: Vec<u128> = Vec::new();
        let mut position: usize = 0;
        while position < length
            invariant
                position <= length,
                length == common_length(series_list(series@)),
                combined@ == averaged(series_list(series@)).take(position as int),
            decreases length - position,
        {
            let total: u128 = Self::total_at(series, position);
            combined.push(total / (series.len() as u128));
            position = position + 1;
        }
        combined
    }
}

/// The mean, rounded down, of the samples of a series from `start` up to,
/// not including, `end`; 0 where that span is empty.
pub fn span_mean(series: &Vec<u128>, start: usize, end: usize) -> (result: u128)
    requires
        start <= end <= series.len(),
    ensures
        result == mean(span(series@, start as int, end as int)),
{
    if start == end {
        return 0;
    }
    let ghost whole = span(series@, start as int, end as int);
    let count: u128 = (end - start) as u128;
    let mut quotients: u128 = 0;
    let mut remainders: u128 = 0;
    let mut i: usize = start;
    while i < end
        invariant
            start <= i <= end <= series.len(),
            start < end,
            count == end - start,
            whole == span(series@, start as int, end as int),
            quotients * count + remainders == sum(whole.take(i - start)),
            quotients <= (i - start) * (u128::MAX / count),
            remainders <= (i - start) * (count - 1),
        decreases end - i,
    {
        let sample: u128 = series[i];
        proof {
            let done = i - start;
            let next = whole.take(done + 1);
            assert(next.drop_last() =~= whole.take(done));
            assert(next.last() == sample);
            let cap = (u128::MAX / count) as int;
            let c = count as int;
            let s = sample as int;
            assert(s / c <= cap && s == c * (s / c) + s % c && 0 <= s % c <= c - 1)
                by (nonlinear_arith)
                requires
                    0 <= s <= u128::MAX,
                    c > 0,
                    cap == (u128::MAX as int) / c,
            ;
            assert((done + 1) * cap <= u128::MAX && (done + 1) * (c - 1) <= u128::MAX
                && done * cap + cap == (done + 1) * cap
                && done * (c - 1) + (c - 1) == (done + 1) * (c - 1)) by (nonlinear_arith)
                requires
                    0 <= done < c,
                    c <= u64::MAX,
                    cap == (u128::MAX as int) / c,
            ;
            assert((quotients + s / c) * c + (remainders + s % c) == quotients * c + remainders
                + s) by (nonlinear_arith)
                requires
                    s == c * (s / c) + s % c,
            ;
        }
        quotients = quotients + sample / count;
        remainders = remainders + sample % count;
        i = i + 1;
    }
    proof {
        assert(whole.take(end - start) =~= whole);
        assert(bounded_by(whole, u128::MAX as nat));
        lemma_mean_bound(whole, u128::MAX as nat);
        lemma_hoist_over_denominator(remainders as int, quotients as int, count as nat);
        assert(remainders + quotients * count == quotients * count + remainders);
    }
    quotients + remainders / count
}

/// Smooths a series by a moving average over a window of a fixed number of
/// samples.
pub struct MovingAverageProcessor {
    pub window_size: usize,
}

impl MovingAverageProcessor {
    /// A processor whose windows hold `window_size` samples.
    pub fn new(window_size: usize) -> (processor: Self)
        ensures
            processor.window_size == window_size,
    {
        MovingAverageProcessor { window_size }
    }

    /// The moving average of a series. The result has one sample for each
    /// sample of the series: the mean, rounded down, of the window that ends
    /// there. Near the start of the series, where fewer samples come before
    /// than the window holds, the window is as much shorter.
    pub fn process(&self, series: &Vec<u128>) -> (result: Vec<u128>)
        ensures
            result@ == smoothed(series@, self.window_size as nat),
    {
        let mut result: Vec<u128> = Vec::new();
        let mut position: usize = 0;
        while position < series.len()
            invariant
                position <= series.len(),
                result@ == smoothed(series@, self.window_size as nat).take(position as int),
            decreases series.len() - position,
        {
            let start: usize = if self.window_size <= 1 {
                position
            } else if position + 1 >= self.window_size {
                position + 1 - self.window_size
            } else {
                0
            };
            let value: u128 = span_mean(series, start, position + 1);
            result.push(value);
            position = position + 1;
        }
        result
    }
}

} // verus!
