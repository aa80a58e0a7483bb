//! Response-time metrics shared by the load balancer's middleware and its
//! strategy manager.

use vstd::prelude::*;

verus! {

/// `n`, or `u64::MAX` where `n` does not fit in 64 bits.
pub open spec fn saturate_u64(n: u128) -> u64 {
    if n > u64::MAX as u128 {
        u64::MAX
    } else {
        n as u64
    }
}

/// A response time in nanoseconds, saturated to 64 bits.
pub fn sample_nanos(duration_nanos: u128) -> (r: u64)
    ensures
        r == saturate_u64(duration_nanos),
{
    if duration_nanos > u64::MAX as u128 {
        u64::MAX
    } else {
        duration_nanos as u64
    }
}

/// The average response time and the request counters of the load balancer.
#[derive(Debug, Clone, Copy)]
pub struct Metrics {
    /// Moving average of the response time, in nanoseconds; zero while no
    /// response has been measured.
    pub avg_response_time: u64,
    pub request_count: u64,
    pub error_count: u64,
    pub active_connections: usize,
}

impl Metrics {
    /// Metrics with no measurement yet.
    pub fn new() -> (r: Self)
        ensures
            r.avg_response_time == 0,
            r.request_count == 0,
            r.error_count == 0,
            r.active_connections == 0,
    {
        Metrics { avg_response_time: 0, request_count: 0, error_count: 0, active_connections: 0 }
    }

    /// Records one response time.
    ///
    /// The first measurement (average still zero) becomes the average as it
    /// is, saturated to 64 bits. Later ones are folded in as an exponential
    /// moving average with weight 0.1 for the new sample: the caller computes
    /// that floating-point blend of the current average and
    /// `sample_nanos(duration_nanos)` and hands it over as `blended_average`.
    pub fn record_response_time(&mut self, duration_nanos: u128, blended_average: u64)
        ensures
            final(self).avg_response_time == (if old(self).avg_response_time == 0 {
                saturate_u64(duration_nanos)
            } else {
                blended_average
            }),
            final(self).request_count == old(self).request_count,
            final(self).error_count == old(self).error_count,
            final(self).active_connections == old(self).active_connections,
    {
        let sample = sample_nanos(duration_nanos);
        if self.avg_response_time == 0 {
            self.avg_response_time = sample;
        } else {
            self.avg_response_time = blended_average;
        }
    }
}

impl Default for Metrics {
    fn default() -> (r: Self)
        ensures
            r.avg_response_time == 0,
            r.request_count == 0,
            r.error_count == 0,
            r.active_connections == 0,
    {
        Metrics::new()
    }
}

} // verus!
