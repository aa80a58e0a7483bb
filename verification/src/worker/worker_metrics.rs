//! Middleware state that times the wrapped service and feeds the worker's
//! metrics.

use crate::loadbalancer::metrics::saturate_u64;
use crate::worker::metrics::Metrics;
use vstd::prelude::*;

verus! {

/// Wraps a service together with the metrics its responses are recorded in.
#[derive(Debug)]
pub struct WorkerMetrics<S> {
    /// The wrapped service.
    pub inner: S,
    /// The metrics every response is recorded in.
    pub metrics: Metrics,
}

impl<S> WorkerMetrics<S> {
    /// Wraps `inner` with `metrics`.
    pub fn new(inner: S, metrics: Metrics) -> (r: Self)
        ensures
            r.inner == inner,
            r.metrics == metrics,
    {
        WorkerMetrics { inner, metrics }
    }

    /// Records the time one response took (see `Metrics::record_response_time`).
    pub fn record_response_time(&mut self, duration_nanos: u128, blended_average: u64)
        ensures
            final(self).inner == old(self).inner,
            final(self).metrics@.avg_response_time == (if old(self).metrics@.avg_response_time
                == 0 {
                saturate_u64(duration_nanos)
            } else {
                blended_average
            }),
            final(self).metrics@.connection_count == old(self).metrics@.connection_count,
    {
        self.metrics.record_response_time(duration_nanos, blended_average);
    }
}

} // verus!
