//! Verified core of a small HTTP load balancer and its workers.
//!
//! The crate is organised after the three programs it serves:
//! - [`loadbalancer`]: configuration, metrics, the adaptive strategy manager,
//!   the worker-status table and worker selection of the load balancer;
//! - [`worker`]: the metrics and health-report logic of a worker process;
//! - [`basic`]: the first, round-robin-only balancer and its simple worker.
//!
//! Everything that touches sockets, files, the environment, threads or
//! serde lives in the companion application, which calls into this library.

pub mod basic;
pub mod constants;
pub mod laws;
pub mod loadbalancer;
pub mod text;
pub mod uri;
pub mod worker;
