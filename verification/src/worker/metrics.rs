//! The metrics a worker keeps: how many connections it serves and the
//! moving average of its response time.

use crate::loadbalancer::metrics::{sample_nanos, saturate_u64};
use vstd::prelude::*;

verus! {

/// The values held by a worker's [`Metrics`].
pub struct MetricsView {
    /// Moving average of the response time in nanoseconds; zero while no
    /// response has been measured.
    pub avg_response_time: u64,
    /// Connections being served.
    pub connection_count: u64,
}

/// A worker's metrics.
#[derive(Debug)]
pub struct Metrics {
    avg_response_time: u64,
    connection_count: u64,
}

impl View for Metrics {
    type V = MetricsView;

    closed spec fn view(&self) -> MetricsView {
        MetricsView {
            avg_response_time: self.avg_response_time,
            connection_count: self.connection_count,
        }
    }
}

/// `count + 1`, wrapping to zero after `u64::MAX`.
pub open spec fn count_up(count: u64) -> u64 {
    if count == u64::MAX {
        0
    } else {
        (count + 1) as u64
    }
}

/// `count - 1`, wrapping to `u64::MAX` below zero.
pub open spec fn count_down(count: u64) -> u64 {
    if count == 0 {
        u64::MAX
    } else {
        (count - 1) as u64
    }
}

impl Metrics {
    /// Metrics with no connection and no measurement.
    pub fn new() -> (r: Self)
        ensures
            r@.avg_response_time == 0,
            r@.connection_count == 0,
    {
        Metrics { avg_response_time: 0, connection_count: 0 }
    }

    /// Connections being served.
    pub fn get_connection_count(&self) -> (r: u64)
        ensures
            r == self@.connection_count,
    {
        self.connection_count
    }

    /// Average response time in nanoseconds.
    pub fn get_avg_response_time(&self) -> (r: u64)
        ensures
            r == self@.avg_response_time,
    {
        self.avg_response_time
    }

    /// Records one response time. The first measurement becomes the average,
    /// saturated to 64 bits; later ones are folded in as an exponential moving
    /// average with weight 0.1 for the new sample, whose floating-point value
    /// the caller computes and hands over as `blended_average`.
    pub fn record_response_time(&mut self, duration_nanos: u128, blended_average: u64)
        ensures
            final(self)@.avg_response_time == (if old(self)@.avg_response_time == 0 {
                saturate_u64(duration_nanos)
            } else {
                blended_average
            }),
            final(self)@.connection_count == old(self)@.connection_count,
    {
        let sample = sample_nanos(duration_nanos);
        if self.avg_response_time == 0 {
            self.avg_response_time = sample;
        } else {
            self.avg_response_time = blended_average;
        }
    }

    /// Counts one more connection (wrapping, as an atomic counter does).
    pub fn record_connection(&mut self)
        ensures
            final(self)@.connection_count == count_up(old(self)@.connection_count),
            final(self)@.avg_response_time == old(self)@.avg_response_time,
    {
        self.connection_count = self.connection_count.wrapping_add(1);
    }

    /// Counts one connection less (wrapping, as an atomic counter does).
    pub fn release_connection(&mut self)
        ensures
            final(self)@.connection_count == count_down(old(self)@.connection_count),
            final(self)@.avg_response_time == old(self)@.avg_response_time,
    {
        self.connection_count = self.connection_count.wrapping_sub(1);
    }
}

impl Default for Metrics {
    fn default() -> (r: Self)
        ensures
            r@.avg_response_time == 0,
            r@.connection_count == 0,
    {
        Metrics::new()
    }
}

/// Releasing a connection right after recording one restores the count.
pub proof fn lemma_release_undoes_record(count: u64)
    ensures
        count_down(count_up(count)) == count,
{
}

/// Recording a connection right after releasing one restores the count.
pub proof fn lemma_record_undoes_release(count: u64)
    ensures
        count_up(count_down(count)) == count,
{
}

} // verus!
