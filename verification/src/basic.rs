//! The first load balancer: round robin over a fixed list of workers, and the
//! health report of its simple workers.

use crate::loadbalancer::load_balancer::string_views;
use crate::text::{concat2, concat3};
use crate::uri::{forward_uri_text, opt_str_view, parse_outcome, parse_worker_uri};
use vstd::prelude::*;

verus! {

/// What can go wrong while setting up the first load balancer.
#[derive(Debug)]
pub enum ApplicationError {
    ConfigFileNotFound(String),
    EnvConfigNotFound(String),
    ConfigInvalid,
    UnexpectedError,
}

impl ApplicationError {
    /// The human-readable message of the error.
    pub fn message(&self) -> (r: String)
        ensures
            match self {
                ApplicationError::ConfigFileNotFound(p) => r@ == "Config file not found:"@ + p@,
                ApplicationError::EnvConfigNotFound(v) => r@ == "Env var "@ + v@ + " not found"@,
                ApplicationError::ConfigInvalid => r@ == "Config Invalid"@,
                ApplicationError::UnexpectedError => r@ == "Unexpected Error"@,
            },
    {
        match self {
            ApplicationError::ConfigFileNotFound(p) => concat2("Config file not found:", p.as_str()),
            ApplicationError::EnvConfigNotFound(v) => concat3("Env var ", v.as_str(), " not found"),
            ApplicationError::ConfigInvalid => String::from_str("Config Invalid"),
            ApplicationError::UnexpectedError => String::from_str("Unexpected Error"),
        }
    }
}

/// The position round robin moves to from `current` over `n` workers.
pub open spec fn next_index(current: usize, n: nat) -> int {
    (current + 1) % (n as int)
}

/// Round robin over a fixed, non-empty list of workers.
pub struct LoadBalancer {
    worker_hosts: Vec<String>,
    current_worker: usize,
}

impl LoadBalancer {
    /// The worker addresses, in order.
    pub closed spec fn hosts(&self) -> Seq<Seq<char>> {
        string_views(self.worker_hosts@)
    }

    /// The position of the worker chosen last (zero before any choice).
    pub closed spec fn position(&self) -> usize {
        self.current_worker
    }

    /// The invariant: at least one worker, and the position is one of them.
    pub closed spec fn wf(&self) -> bool {
        &&& self.worker_hosts@.len() > 0
        &&& self.current_worker < self.worker_hosts@.len()
    }

    /// A balancer over `worker_hosts`, positioned on the first. An empty list
    /// is refused with the message `No worker hosts provided`.
    pub fn new(worker_hosts: Vec<String>) -> (r: Result<Self, String>)
        ensures
            worker_hosts@.len() == 0 <==> r is Err,
            r matches Err(m) ==> m@ == "No worker hosts provided"@,
            r matches Ok(lb) ==> lb.wf() && lb.hosts() == string_views(worker_hosts@)
                && lb.position() == 0,
    {
        if worker_hosts.len() == 0 {
            return Err(String::from_str("No worker hosts provided"));
        }
        Ok(LoadBalancer { worker_hosts, current_worker: 0 })
    }

    /// Moves to the next worker in order, wrapping to the first after the
    /// last, and returns its address. The first choice after creation is the
    /// second worker (the first when there is only one).
    pub fn get_next_worker(&mut self) -> (r: String)
        requires
            old(self).wf(),
        ensures
            final(self).wf(),
            final(self).hosts() == old(self).hosts(),
            final(self).position() == next_index(old(self).position(), old(self).hosts().len()),
            r@ == old(self).hosts()[final(self).position() as int],
    {
        let n = self.worker_hosts.len();
        let idx = (self.current_worker + 1) % n;
        self.current_worker = idx;
        self.worker_hosts[idx].clone()
    }

    /// Moves to the next worker (as `get_next_worker`) and builds the URI the
    /// request is forwarded to: `http://`, the worker's address, then
    /// `path_and_query`. Fails when that text is not a URI.
    pub fn forward_request(&mut self, path_and_query: Option<&str>) -> (r: Result<
        hyper::Uri,
        hyper::http::uri::InvalidUri,
    >)
        requires
            old(self).wf(),
        ensures
            final(self).wf(),
            final(self).hosts() == old(self).hosts(),
            final(self).position() == next_index(old(self).position(), old(self).hosts().len()),
            parse_outcome(
                r,
                forward_uri_text(
                    old(self).hosts()[final(self).position() as int],
                    opt_str_view(path_and_query),
                ),
            ),
    {
        let worker_addr = self.get_next_worker();
        parse_worker_uri(worker_addr.as_str(), path_and_query)
    }
}

/// Whether a simple worker is up.
#[derive(Debug, Clone, Copy, PartialEq, Eq, Structural)]
pub enum WorkerStatus {
    UP,
    DOWN,
}

/// The health report of a simple worker.
#[derive(Debug, Clone, Copy, PartialEq, Eq, Structural)]
pub struct HealthResponseBody {
    pub status: WorkerStatus,
    pub connection_count: usize,
}

/// The report a serving worker gives: up, with its current connection count.
pub fn health_response_body(connection_count: usize) -> (r: HealthResponseBody)
    ensures
        r.status == WorkerStatus::UP,
        r.connection_count == connection_count,
{
    HealthResponseBody { status: WorkerStatus::UP, connection_count }
}

} // verus!
