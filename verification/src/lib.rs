//! Aggregation of per-actor benchmark measurements into one group summary.
//!
//! Every quantity is a whole number of a unit that the caller fixes for the
//! field it belongs to (for instance bytes per second for data throughput and
//! microseconds for latency). With whole numbers every sum is exact and no
//! result depends on the order of the records; a record cannot hold a value
//! that is not a number, so the least and the greatest value of a group are
//! always defined. Means, and the standard deviation, are rounded down to a
//! whole unit. Measurements of single actors are held in 64 bits;
//! everything that is computed from them is held in 128 bits, so that no sum
//! over a collection of measurements can overflow.
//!
//! [`group`] holds the aggregation itself, [`reduce`] and [`time_series`]
//! the reductions it is made of, [`statistics`] the statistics of one
//! series, [`laws`] what holds of every aggregation, [`timing`] the lines
//! that report how long an aggregation took, [`utils`] the counts that a
//! benchmark reports beside its metrics, and [`params`] the parameters of a
//! run and the command line by which it can be repeated, built with the
//! texts of [`text`].

pub mod group;
pub mod kinds;
pub mod laws;
pub mod metrics;
pub mod params;
pub mod permutation;
pub mod reduce;
pub mod statistics;
pub mod text;
pub mod time_series;
pub mod timing;
pub mod utils;
