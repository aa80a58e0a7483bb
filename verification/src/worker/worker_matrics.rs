//! Middleware state that hands the connection counter to the wrapped service.

use std::sync::Arc;
use std::sync::atomic::AtomicUsize;
use vstd::prelude::*;

verus! {

/// Wraps a service together with the connection counter it reports.
#[derive(Debug, Clone)]
pub struct WorkerMatrics<S> {
    /// The wrapped service.
    pub inner: S,
    /// The connection counter handed to each request, shared with whoever
    /// else holds it.
    pub connection_count: Arc<AtomicUsize>,
}

impl<S> WorkerMatrics<S> {
    /// Wraps `inner` with the shared counter `connection_count`.
    pub fn new(inner: S, connection_count: Arc<AtomicUsize>) -> (r: Self)
        ensures
            r.inner == inner,
            r.connection_count == connection_count,
    {
        WorkerMatrics { inner, connection_count }
    }
}

} // verus!
