//! Response-time middleware state of the load balancer, and the
//! duration-based metrics record.

use crate::loadbalancer::metrics::saturate_u64;
use vstd::prelude::*;

verus! {

/// The running average kept by [`LoadBalancerMetrics`]: the first sample as
/// it is, afterwards the mean of the previous average and the new sample,
/// rounded down.
pub open spec fn halved_average(current: u64, sample: u64) -> int {
    if current == 0 {
        sample as int
    } else {
        (current + sample) / 2
    }
}

/// Middleware around an inner service that keeps the average time its
/// responses take, in nanoseconds.
#[derive(Debug, Clone)]
pub struct LoadBalancerMetrics<S> {
    /// The wrapped service.
    pub inner: S,
    pub avg_response_time: u64,
}

impl<S> LoadBalancerMetrics<S> {
    /// Wraps `inner`, with no measurement yet.
    pub fn new(inner: S) -> (r: Self)
        ensures
            r.inner == inner,
            r.avg_response_time == 0,
    {
        LoadBalancerMetrics { inner, avg_response_time: 0 }
    }

    /// Folds in one response that took `elapsed_nanos` nanoseconds, counted
    /// modulo 2^64 as the 64-bit conversion of the measured time does. The
    /// sum of the old average and the sample must fit in 64 bits.
    pub fn record_response_time(&mut self, elapsed_nanos: u128) -> (r: u64)
        requires
            old(self).avg_response_time == 0 || old(self).avg_response_time + (elapsed_nanos as u64)
                <= u64::MAX,
        ensures
            r == final(self).avg_response_time,
            final(self).avg_response_time == halved_average(
                old(self).avg_response_time,
                elapsed_nanos as u64,
            ),
            final(self).inner == old(self).inner,
    {
        let sample = elapsed_nanos as u64;
        let new_avg = if self.avg_response_time == 0 {
            sample
        } else {
            (self.avg_response_time + sample) / 2
        };
        self.avg_response_time = new_avg;
        new_avg
    }
}

/// A new running average always lies between the previous average and the
/// new sample (once there is a previous average).
pub proof fn lemma_halved_average_between(current: u64, sample: u64)
    requires
        current != 0,
    ensures
        (if current <= sample { current as int } else { sample as int }) <= halved_average(
            current,
            sample,
        ) <= (if current <= sample { sample as int } else { current as int }),
{
}

/// Averaging a sample equal to the average leaves the average unchanged.
pub proof fn lemma_halved_average_fixed_point(value: u64)
    ensures
        halved_average(value, value) == value,
{
}

/// Response-time record whose average is a duration kept at full width, in
/// nanoseconds.
#[derive(Debug, Clone, Copy)]
pub struct Metrics {
    /// Moving average of the response time in nanoseconds; zero while no
    /// response has been measured.
    pub avg_response_time: u128,
    pub request_count: u64,
    pub error_count: u64,
    pub active_connections: usize,
}

impl Metrics {
    /// Metrics with no measurement yet.
    pub fn new() -> (r: Self)
        ensures
            r.avg_response_time == 0,
            r.request_count == 0,
            r.error_count == 0,
            r.active_connections == 0,
    {
        Metrics { avg_response_time: 0, request_count: 0, error_count: 0, active_connections: 0 }
    }

    /// Records one response time of `duration_nanos` nanoseconds.
    ///
    /// The first measurement becomes the average unchanged. Later ones are
    /// folded in as an exponential moving average with weight 0.1 for the new
    /// sample; the caller computes that floating-point blend of the current
    /// average and the sample, converted to whole nanoseconds, and hands it
    /// over as `blended_average`.
    pub fn record_response_time(&mut self, duration_nanos: u128, blended_average: u64)
        ensures
            final(self).avg_response_time == (if old(self).avg_response_time == 0 {
                duration_nanos
            } else {
                blended_average as u128
            }),
            final(self).request_count == old(self).request_count,
            final(self).error_count == old(self).error_count,
            final(self).active_connections == old(self).active_connections,
    {
        if self.avg_response_time == 0 {
            self.avg_response_time = duration_nanos;
        } else {
            self.avg_response_time = blended_average as u128;
        }
    }

    /// The average response time in nanoseconds, saturated to 64 bits.
    pub fn avg_response_nanos_u64(&self) -> (r: u64)
        ensures
            r == saturate_u64(self.avg_response_time),
    {
        crate::loadbalancer::metrics::sample_nanos(self.avg_response_time)
    }
}

impl Default for Metrics {
    fn default() -> (r: Self)
        ensures
            r.avg_response_time == 0,
            r.request_count == 0,
            r.error_count == 0,
            r.active_connections == 0,
    {
        Metrics::new()
    }
}

} // verus!
