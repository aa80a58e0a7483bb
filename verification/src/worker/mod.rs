//! A worker process: its metrics and its health report.

pub mod application;
pub mod health;
pub mod metrics;
pub mod worker_matrics;
pub mod worker_metrics;

pub use application::ApplicationError;
pub use health::{HealthResponseBody, WorkerRoute};
pub use metrics::Metrics;
pub use worker_matrics::WorkerMatrics;
pub use worker_metrics::WorkerMetrics;
