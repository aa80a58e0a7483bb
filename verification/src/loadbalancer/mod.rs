//! The adaptive load balancer.

pub mod lb_config;
pub mod metrics;
pub mod strategy;

pub use lb_config::{LoadBalancerConfig, ServerConfig, StrategyConfig};
pub use metrics::Metrics;
pub use strategy::LoadBalanceStrategy;
pub mod strategy_manager;
pub use strategy_manager::{StrategyController, StrategyManager};
pub mod matrics;
pub use matrics::LoadBalancerMetrics;
pub mod status_table;
pub use status_table::{WorkerStatus, WorkerStatusTable};
pub mod load_balancer;
pub use load_balancer::{HealthResponseBody, LoadBalancer, LoadBalancerError};
pub mod application;
pub use application::ApplicationError;
