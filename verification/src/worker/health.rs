//! The worker's request routing and the health report it answers with.

use crate::worker::metrics::Metrics;
use vstd::prelude::*;

verus! {

/// What a worker answers a request with.
#[derive(Debug, Clone, Copy, PartialEq, Eq, Structural)]
pub enum WorkerRoute {
    /// `/health`: the health report.
    Health,
    /// Any other path: an empty body.
    Default,
}

/// The route for a request path: `/health` exactly, or anything else.
pub open spec fn route_of(path: Seq<char>) -> WorkerRoute {
    if path == "/health"@ {
        WorkerRoute::Health
    } else {
        WorkerRoute::Default
    }
}

/// Routes a request by its path.
pub fn route_for_path(path: &str) -> (r: WorkerRoute)
    ensures
        r == route_of(path@),
        r == WorkerRoute::Health <==> path@ == seq!['/', 'h', 'e', 'a', 'l', 't', 'h'],
{
    proof {
        crate::laws::lemma_route_is_health_exactly(path@);
    }
    let path_string = String::from_str(path);
    let health = String::from_str("/health");
    if path_string == health {
        WorkerRoute::Health
    } else {
        WorkerRoute::Default
    }
}

/// A worker's health report.
#[derive(Debug, Clone, Copy, PartialEq, Eq)]
pub struct HealthResponseBody {
    pub connection_count: usize,
    /// Average response time in nanoseconds.
    pub avg_response_time: u64,
}

/// The health report for `metrics`.
pub fn health_response_body(metrics: &Metrics) -> (r: HealthResponseBody)
    ensures
        r.connection_count == metrics@.connection_count as usize,
        r.avg_response_time == metrics@.avg_response_time,
{
    HealthResponseBody {
        connection_count: metrics.get_connection_count() as usize,
        avg_response_time: metrics.get_avg_response_time(),
    }
}

} // verus!
