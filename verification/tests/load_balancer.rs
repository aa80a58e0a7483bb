use std::time::Duration;
use trailblazer::loadbalancer::application::build_load_balancer;
use trailblazer::loadbalancer::load_balancer::check_health_status;
use trailblazer::loadbalancer::{
    HealthResponseBody, LoadBalanceStrategy, LoadBalancer, LoadBalancerConfig, LoadBalancerError,
    Metrics, StrategyConfig, StrategyManager, WorkerStatus,
};

fn create_test_config(load_balance_strategy: LoadBalanceStrategy) -> LoadBalancerConfig {
    LoadBalancerConfig {
        workers: vec![
            "127.0.0.1:8001".to_string(),
            "127.0.0.1:8002".to_string(),
            "127.0.0.1:8003".to_string(),
        ],
        strategy_config: StrategyConfig {
            default_strategy: load_balance_strategy,
            ..Default::default()
        },
        ..Default::default()
    }
}

fn create_test_load_balancer(
    load_balance_strategy: LoadBalanceStrategy,
) -> Result<LoadBalancer, LoadBalancerError> {
    let config = create_test_config(load_balance_strategy);
    let metrics = Metrics::default();
    let strategy_manager = StrategyManager::new(config.strategy_config, metrics);
    LoadBalancer::new(config, strategy_manager)
}

#[test]
fn test_load_balancer_creation_success() {
    let lb = create_test_load_balancer(LoadBalanceStrategy::RoundRobin);
    assert!(lb.is_ok());

    let lb = lb.unwrap();
    assert_eq!(lb.worker_hosts().len(), 3);
    assert_eq!(lb.worker_hosts()[0], "127.0.0.1:8001");
    assert_eq!(lb.worker_hosts()[1], "127.0.0.1:8002");
    assert_eq!(lb.worker_hosts()[2], "127.0.0.1:8003");
}

#[test]
fn test_load_balancer_creation_with_empty_workers() {
    let config = LoadBalancerConfig {
        workers: vec![],
        ..Default::default()
    };
    let metrics = Metrics::default();
    let strategy_manager = StrategyManager::new(config.strategy_config, metrics);

    let result = LoadBalancer::new(config, strategy_manager);
    assert!(result.is_err());
}

#[test]
fn test_round_robin_strategy() {
    let mut lb = create_test_load_balancer(LoadBalanceStrategy::RoundRobin).unwrap();

    let worker1 = lb.get_next_worker();
    let worker2 = lb.get_next_worker();
    let worker3 = lb.get_next_worker();
    let worker4 = lb.get_next_worker();

    assert_eq!(worker1, "127.0.0.1:8001");
    assert_eq!(worker2, "127.0.0.1:8002");
    assert_eq!(worker3, "127.0.0.1:8003");
    assert_eq!(worker4, "127.0.0.1:8001");
}

#[test]
fn test_least_avg_response_time_strategy() {
    let mut lb = create_test_load_balancer(LoadBalanceStrategy::LeastAvgResponseTime).unwrap();

    lb.update_worker_status(
        "127.0.0.1:8001".to_string(),
        WorkerStatus {
            connection_count: 5,
            avg_response_time: Duration::from_millis(100).as_nanos() as u64,
        },
    );
    lb.update_worker_status(
        "127.0.0.1:8002".to_string(),
        WorkerStatus {
            connection_count: 3,
            avg_response_time: Duration::from_millis(50).as_nanos() as u64,
        },
    );
    lb.update_worker_status(
        "127.0.0.1:8003".to_string(),
        WorkerStatus {
            connection_count: 2,
            avg_response_time: Duration::from_millis(200).as_nanos() as u64,
        },
    );

    let selected_worker = lb.get_next_worker();
    assert_eq!(selected_worker, "127.0.0.1:8002");
}

#[test]
fn test_worker_status_from_health_response_body() {
    let health_response = HealthResponseBody {
        connection_count: 10,
        avg_response_time: 150_000_000,
    };

    let worker_status: WorkerStatus = health_response.into();
    assert_eq!(worker_status.connection_count, 10);
    assert_eq!(
        worker_status.avg_response_time,
        Duration::from_millis(150).as_nanos() as u64
    );
}

#[test]
fn test_worker_status_initialization() {
    let lb = create_test_load_balancer(LoadBalanceStrategy::RoundRobin).unwrap();

    for worker in lb.worker_hosts() {
        let status = lb.worker_status(worker).unwrap();
        assert_eq!(status.connection_count, 0);
        assert_eq!(status.avg_response_time, 0);
    }
}

#[test]
fn test_load_balancer_error_display() {
    let config_error = LoadBalancerError::ConfigError;
    assert_eq!(config_error.message(), "Configuration error");

    let worker_error = LoadBalancerError::WorkerError("Test error".to_string());
    assert_eq!(worker_error.message(), "Worker error: Test error");

    let strategy_error = LoadBalancerError::StrategyError("Strategy failed".to_string());
    assert_eq!(strategy_error.message(), "Strategy error: Strategy failed");
}

#[test]
fn load_balancer_error_other_messages() {
    assert_eq!(LoadBalancerError::UnexpectedError.message(), "Unexpected Error");
    let io = LoadBalancerError::IoError(std::io::Error::new(std::io::ErrorKind::Other, "boom"));
    assert_eq!(io.message(), "IO error: boom");
}

#[test]
fn least_avg_ties_go_to_the_first_worker() {
    let mut lb = create_test_load_balancer(LoadBalanceStrategy::LeastAvgResponseTime).unwrap();
    // All zero: the first worker in table order.
    assert_eq!(lb.get_next_worker(), "127.0.0.1:8001");
    lb.update_worker_status(
        "127.0.0.1:8001".to_string(),
        WorkerStatus { connection_count: 1, avg_response_time: 9 },
    );
    lb.update_worker_status(
        "127.0.0.1:8002".to_string(),
        WorkerStatus { connection_count: 1, avg_response_time: 4 },
    );
    lb.update_worker_status(
        "127.0.0.1:8003".to_string(),
        WorkerStatus { connection_count: 1, avg_response_time: 4 },
    );
    assert_eq!(lb.get_next_worker(), "127.0.0.1:8002");
    // The counter is not touched by this strategy.
    assert_eq!(lb.get_next_worker(), "127.0.0.1:8002");
}

#[test]
fn update_worker_connection_count_records_answered_workers() {
    let mut lb = create_test_load_balancer(LoadBalanceStrategy::LeastAvgResponseTime).unwrap();
    let reports = vec![
        Some(WorkerStatus { connection_count: 3, avg_response_time: 30 }),
        None,
        Some(WorkerStatus { connection_count: 1, avg_response_time: 10 }),
    ];
    lb.update_worker_connection_count(&reports);
    let hosts = lb.worker_hosts().clone();
    assert_eq!(lb.worker_status(&hosts[0]).unwrap().avg_response_time, 30);
    assert_eq!(lb.worker_status(&hosts[1]).unwrap().avg_response_time, 0);
    assert_eq!(lb.worker_status(&hosts[2]).unwrap().connection_count, 1);
    // The unreported worker still has the zero average, so it is the fastest.
    assert_eq!(lb.get_next_worker(), "127.0.0.1:8002");
}

#[test]
fn duplicate_workers_share_one_status() {
    let config = LoadBalancerConfig {
        workers: vec!["a:1".to_string(), "a:1".to_string()],
        ..Default::default()
    };
    let manager = StrategyManager::new(config.strategy_config, Metrics::default());
    let mut lb = LoadBalancer::new(config, manager).unwrap();
    lb.update_worker_status(
        "a:1".to_string(),
        WorkerStatus { connection_count: 2, avg_response_time: 5 },
    );
    assert_eq!(lb.worker_status(&"a:1".to_string()).unwrap().connection_count, 2);
    assert!(lb.worker_status(&"b:2".to_string()).is_none());
}

#[test]
fn forward_request_builds_worker_uri() {
    let mut lb = create_test_load_balancer(LoadBalanceStrategy::RoundRobin).unwrap();
    let uri = lb.forward_request(Some("/health?x=1")).unwrap();
    assert_eq!(uri.to_string(), "http://127.0.0.1:8001/health?x=1");
    let uri = lb.forward_request(None).unwrap();
    assert_eq!(uri.authority().unwrap().as_str(), "127.0.0.1:8002");
}

#[test]
fn forward_request_refuses_invalid_uri() {
    let config = LoadBalancerConfig {
        workers: vec!["bad host".to_string()],
        ..Default::default()
    };
    let manager = StrategyManager::new(config.strategy_config, Metrics::default());
    let mut lb = LoadBalancer::new(config, manager).unwrap();
    assert!(lb.forward_request(Some("/")).is_err());
}

#[test]
fn check_health_status_accepts_only_2xx() {
    assert!(check_health_status(200).is_ok());
    assert!(check_health_status(204).is_ok());
    assert!(check_health_status(299).is_ok());
    match check_health_status(500) {
        Err(LoadBalancerError::WorkerError(m)) => {
            assert_eq!(m, "Worker returned non-200 status code")
        }
        _ => panic!("expected a worker error"),
    }
    assert!(check_health_status(199).is_err());
    assert!(check_health_status(300).is_err());
}

#[test]
fn build_load_balancer_uses_the_configured_strategy() {
    let mut lb = build_load_balancer(create_test_config(LoadBalanceStrategy::RoundRobin)).unwrap();
    assert_eq!(
        lb.strategy_manager().get_current_strategy(),
        LoadBalanceStrategy::RoundRobin
    );
    assert_eq!(lb.metrics().avg_response_time, 0);
    assert_eq!(lb.config().workers.len(), 3);
    lb.record_response_time(300_000_000, 0);
    assert_eq!(lb.metrics().avg_response_time, 300_000_000);
    match build_load_balancer(LoadBalancerConfig::default()) {
        Err(LoadBalancerError::ConfigError) => {}
        _ => panic!("expected a configuration error"),
    }
}

#[test]
fn default_configuration_values() {
    let config = LoadBalancerConfig::default();
    assert_eq!(config.server_config.address, "0.0.0.0:8000");
    assert_eq!(config.server_config.health_check_interval, 1000);
    assert!(config.workers.is_empty());
    assert_eq!(config.strategy_config.default_strategy, LoadBalanceStrategy::RoundRobin);
    assert_eq!(config.strategy_config.response_time_threshold, 500);
    assert_eq!(config.strategy_config.switch_interval, 5000);
}
