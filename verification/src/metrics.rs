//! The measurements of one actor and the summary of a group of actors.

use crate::kinds::{ActorKind, GroupMetricsKind};
use vstd::prelude::*;

verus! {

/// The scalar results of one actor.
#[derive(Clone, Copy, Debug, PartialEq, Eq, Structural)]
pub struct IndividualMetricsSummary {
    pub actor_kind: ActorKind,
    pub data_throughput: u64,
    pub message_throughput: u64,
    pub p50_latency: u64,
    pub p90_latency: u64,
    pub p95_latency: u64,
    pub p99_latency: u64,
    pub p999_latency: u64,
    pub p9999_latency: u64,
    pub mean_latency: u64,
    pub median_latency: u64,
    pub min_latency: u64,
    pub max_latency: u64,
    pub message_batches: u64,
}

/// Everything that was measured of one actor: its scalar results and the
/// three series that were sampled while it ran.
#[derive(Debug, PartialEq, Eq)]
pub struct IndividualMetrics {
    pub summary: IndividualMetricsSummary,
    pub data_throughput_series: Vec<u64>,
    pub message_throughput_series: Vec<u64>,
    pub latency_series: Vec<u64>,
}

/// The mathematical value of an [`IndividualMetrics`].
pub struct IndividualMetricsView {
    pub summary: IndividualMetricsSummary,
    pub data_throughput_series: Seq<u64>,
    pub message_throughput_series: Seq<u64>,
    pub latency_series: Seq<u64>,
}

impl View for IndividualMetrics {
    type V = IndividualMetricsView;

    open spec fn view(&self) -> IndividualMetricsView {
        IndividualMetricsView {
            summary: self.summary,
            data_throughput_series: self.data_throughput_series@,
            message_throughput_series: self.message_throughput_series@,
            latency_series: self.latency_series@,
        }
    }
}

impl Clone for IndividualMetrics {
    fn clone(&self) -> (copy: Self)
        ensures
            copy@ == self@,
    {
        let copy = IndividualMetrics {
            summary: self.summary,
            data_throughput_series: self.data_throughput_series.clone(),
            message_throughput_series: self.message_throughput_series.clone(),
            latency_series: self.latency_series.clone(),
        };
        assert(copy@.data_throughput_series =~= self@.data_throughput_series);
        assert(copy@.message_throughput_series =~= self@.message_throughput_series);
        assert(copy@.latency_series =~= self@.latency_series);
        copy
    }
}

/// The mathematical values of a collection of records, in its order.
pub open spec fn records_view(records: Seq<IndividualMetrics>) -> Seq<IndividualMetricsView> {
    Seq::new(records.len(), |i: int| records[i]@)
}

/// The scalar results of a group of actors.
#[derive(Clone, Copy, Debug, PartialEq, Eq, Structural)]
pub struct GroupMetricsSummary {
    pub kind: GroupMetricsKind,
    pub total_data_throughput: u128,
    pub total_message_throughput: u128,
    pub average_data_throughput: u128,
    pub average_message_throughput: u128,
    pub average_p50_latency: u128,
    pub average_p90_latency: u128,
    pub average_p95_latency: u128,
    pub average_p99_latency: u128,
    pub average_p999_latency: u128,
    pub average_p9999_latency: u128,
    pub average_mean_latency: u128,
    pub average_median_latency: u128,
    pub min_latency: u128,
    pub max_latency: u128,
    pub latency_std_dev: u128,
}

/// The result of an aggregation: the scalar summary of the group and its
/// three combined and smoothed series.
#[derive(Debug, PartialEq, Eq)]
pub struct GroupMetrics {
    pub summary: GroupMetricsSummary,
    pub data_throughput_series: Vec<u128>,
    pub message_throughput_series: Vec<u128>,
    pub latency_series: Vec<u128>,
}

/// The mathematical value of a [`GroupMetrics`].
pub struct GroupMetricsView {
    pub summary: GroupMetricsSummary,
    pub data_throughput_series: Seq<u128>,
    pub message_throughput_series: Seq<u128>,
    pub latency_series: Seq<u128>,
}

impl View for GroupMetrics {
    type V = GroupMetricsView;

    open spec fn view(&self) -> GroupMetricsView {
        GroupMetricsView {
            summary: self.summary,
            data_throughput_series: self.data_throughput_series@,
            message_throughput_series: self.message_throughput_series@,
            latency_series: self.latency_series@,
        }
    }
}

impl Clone for GroupMetrics {
    fn clone(&self) -> (copy: Self)
        ensures
            copy@ == self@,
    {
        let copy = GroupMetrics {
            summary: self.summary,
            data_throughput_series: self.data_throughput_series.clone(),
            message_throughput_series: self.message_throughput_series.clone(),
            latency_series: self.latency_series.clone(),
        };
        assert(copy@.data_throughput_series =~= self@.data_throughput_series);
        assert(copy@.message_throughput_series =~= self@.message_throughput_series);
        assert(copy@.latency_series =~= self@.latency_series);
        copy
    }
}

} // verus!
