//! Configuration of the load balancer. Durations are held in milliseconds,
//! the unit in which the configuration file gives them.

use crate::loadbalancer::strategy::LoadBalanceStrategy;
use vstd::prelude::*;

verus! {

/// The whole configuration: where to listen, which workers to use and how to
/// choose between strategies.
#[derive(Debug, Clone)]
pub struct LoadBalancerConfig {
    pub server_config: ServerConfig,
    /// Addresses (`host:port`) of the workers.
    pub workers: Vec<String>,
    pub strategy_config: StrategyConfig,
}

/// Where the load balancer listens and how often it polls the workers.
#[derive(Debug, Clone)]
pub struct ServerConfig {
    pub address: String,
    /// Interval between two health checks, in milliseconds.
    pub health_check_interval: u64,
}

/// Parameters of the adaptive strategy.
#[derive(Debug, Clone, Copy)]
pub struct StrategyConfig {
    pub default_strategy: LoadBalanceStrategy,
    /// Average response time, in milliseconds, above which round robin gives
    /// way and below which it comes back.
    pub response_time_threshold: u64,
    /// Minimum time between two switches, in milliseconds.
    pub switch_interval: u64,
}

impl Default for ServerConfig {
    fn default() -> (r: Self)
        ensures
            r.address@ == "0.0.0.0:8000"@,
            r.health_check_interval == 1000,
    {
        ServerConfig { address: String::from_str("0.0.0.0:8000"), health_check_interval: 1000 }
    }
}

impl Default for StrategyConfig {
    fn default() -> (r: Self)
        ensures
            r.default_strategy == LoadBalanceStrategy::RoundRobin,
            r.response_time_threshold == 500,
            r.switch_interval == 5000,
    {
        StrategyConfig {
            default_strategy: LoadBalanceStrategy::RoundRobin,
            response_time_threshold: 500,
            switch_interval: 5000,
        }
    }
}

impl Default for LoadBalancerConfig {
    fn default() -> (r: Self)
        ensures
            r.server_config.address@ == "0.0.0.0:8000"@,
            r.server_config.health_check_interval == 1000,
            r.workers@.len() == 0,
            r.strategy_config.default_strategy == LoadBalanceStrategy::RoundRobin,
            r.strategy_config.response_time_threshold == 500,
            r.strategy_config.switch_interval == 5000,
    {
        LoadBalancerConfig {
            server_config: ServerConfig::default(),
            workers: Vec::new(),
            strategy_config: StrategyConfig::default(),
        }
    }
}

} // verus!
