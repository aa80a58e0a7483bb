//! What the load balancer's application does besides serving: its errors and
//! the assembly of a balancer from the configuration.

use crate::loadbalancer::lb_config::LoadBalancerConfig;
use crate::loadbalancer::load_balancer::{LoadBalancer, LoadBalancerError, starts_with};
use crate::loadbalancer::metrics::Metrics;
use crate::loadbalancer::strategy_manager::StrategyManager;
use crate::text::{concat2, concat3, decimal, u64_to_decimal};
use vstd::prelude::*;

verus! {

#[verifier::external_type_specification]
#[verifier::external_body]
pub struct ExConfigError(::config::ConfigError);

/// What can go wrong while setting up or running the load balancer.
#[derive(Debug)]
pub enum ApplicationError {
    ConfigFileNotFound(String),
    EnvConfigNotFound(String),
    ConfigInvalid(::config::ConfigError),
    PortCanNotBind(u16),
    ServerError,
    HealthCheckError,
}

impl ApplicationError {
    /// The human-readable message of the error.
    pub fn message(&self) -> (r: String)
        ensures
            match self {
                ApplicationError::ConfigFileNotFound(p) => r@ == "Config file not found:"@ + p@,
                ApplicationError::EnvConfigNotFound(v) => r@ == "Env var "@ + v@ + " not found"@,
                ApplicationError::ConfigInvalid(_) => starts_with(r@, "Config Invalid: "@),
                ApplicationError::PortCanNotBind(port) => r@ == "Port "@ + decimal(*port as nat)
                    + " is not available"@,
                ApplicationError::ServerError => r@ == "Server Error"@,
                ApplicationError::HealthCheckError => r@ == "Health check error"@,
            },
    {
        match self {
            ApplicationError::ConfigFileNotFound(p) => concat2("Config file not found:", p.as_str()),
            ApplicationError::EnvConfigNotFound(v) => concat3("Env var ", v.as_str(), " not found"),
            ApplicationError::ConfigInvalid(e) => {
                let detail = e.to_string();
                let r = concat2("Config Invalid: ", detail.as_str());
                proof {
                    assert(r@.subrange(0, "Config Invalid: "@.len() as int) =~= "Config Invalid: "@);
                }
                r
            },
            ApplicationError::PortCanNotBind(port) => {
                let digits = u64_to_decimal(*port as u64);
                concat3("Port ", digits.as_str(), " is not available")
            },
            ApplicationError::ServerError => String::from_str("Server Error"),
            ApplicationError::HealthCheckError => String::from_str("Health check error"),
        }
    }
}

/// Builds the load balancer for `settings`: fresh metrics, a strategy manager
/// on the configured strategy parameters, and the balancer over the
/// configured workers. Fails with `ConfigError` when there are no workers.
pub fn build_load_balancer(settings: LoadBalancerConfig) -> (r: Result<
    LoadBalancer,
    LoadBalancerError,
>)
    ensures
        settings.workers@.len() == 0 <==> r is Err,
        r matches Err(e) ==> e is ConfigError,
        r matches Ok(lb) ==> {
            &&& lb.wf()
            &&& lb.hosts() == crate::loadbalancer::load_balancer::string_views(settings.workers@)
            &&& lb.counter() == 0
            &&& lb.manager().current_strategy == settings.strategy_config.default_strategy
            &&& lb.manager().config == settings.strategy_config
            &&& lb.manager().metrics.avg_response_time == 0
            &&& lb.settings() == settings
        },
{
    let metrics = Metrics::default();
    let strategy_manager = StrategyManager::new(settings.strategy_config, metrics);
    LoadBalancer::new(settings, strategy_manager)
}

} // verus!
