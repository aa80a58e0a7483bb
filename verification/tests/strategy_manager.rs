use std::time::{Duration, Instant};
use trailblazer::loadbalancer::{LoadBalanceStrategy, Metrics, StrategyConfig, StrategyManager};

fn create_test_config() -> StrategyConfig {
    StrategyConfig {
        default_strategy: LoadBalanceStrategy::RoundRobin,
        switch_interval: Duration::from_secs(5).as_millis() as u64,
        response_time_threshold: Duration::from_millis(100).as_millis() as u64,
    }
}

fn create_test_metrics() -> Metrics {
    Metrics::default()
}

fn long_ago() -> Instant {
    Instant::now() - Duration::from_secs(10)
}

#[test]
fn test_new_strategy_manager() {
    let config = create_test_config();
    let metrics = create_test_metrics();

    let manager = StrategyManager::new(config, metrics);

    assert_eq!(
        manager.get_current_strategy(),
        LoadBalanceStrategy::RoundRobin
    );
}

#[test]
fn test_get_current_strategy() {
    let config = create_test_config();
    let metrics = create_test_metrics();
    let manager = StrategyManager::new(config, metrics);

    let strategy = manager.get_current_strategy();

    assert_eq!(strategy, LoadBalanceStrategy::RoundRobin);
}

#[test]
fn test_should_not_switch_immediately_after_creation() {
    let config = create_test_config();
    let metrics = create_test_metrics();
    let manager = StrategyManager::new(config, metrics);

    assert!(manager.should_not_switch());
}

#[test]
fn test_should_not_switch_within_interval() {
    let config = StrategyConfig {
        default_strategy: LoadBalanceStrategy::RoundRobin,
        switch_interval: Duration::from_secs(10).as_millis() as u64,
        response_time_threshold: Duration::from_millis(100).as_millis() as u64,
    };
    let metrics = create_test_metrics();
    let manager = StrategyManager::new(config, metrics);

    assert!(manager.should_not_switch());
}

#[test]
fn test_switch_strategy_no_data() {
    let config = create_test_config();
    let mut metrics = create_test_metrics();
    metrics.avg_response_time = 0;

    let mut manager = StrategyManager::new(config, metrics);
    manager.last_switch = long_ago();

    manager.switch_strategy();

    assert_eq!(
        manager.get_current_strategy(),
        LoadBalanceStrategy::RoundRobin
    );
}

#[test]
fn test_switch_from_round_robin_to_least_avg_high_response_time() {
    let config = create_test_config();
    let mut metrics = create_test_metrics();

    let high_response_time = Duration::from_millis(200);
    metrics.avg_response_time = high_response_time.as_nanos() as u64;

    let mut manager = StrategyManager::new(config, metrics);
    manager.last_switch = long_ago();

    manager.switch_strategy();

    assert_eq!(
        manager.get_current_strategy(),
        LoadBalanceStrategy::LeastAvgResponseTime
    );
}

#[test]
fn test_switch_from_least_avg_to_round_robin_low_response_time() {
    let config = StrategyConfig {
        default_strategy: LoadBalanceStrategy::LeastAvgResponseTime,
        switch_interval: Duration::from_secs(5).as_millis() as u64,
        response_time_threshold: Duration::from_millis(100).as_millis() as u64,
    };
    let mut metrics = create_test_metrics();

    let low_response_time = Duration::from_millis(50);
    metrics.avg_response_time = low_response_time.as_nanos() as u64;

    let mut manager = StrategyManager::new(config, metrics);
    manager.last_switch = long_ago();

    manager.switch_strategy();

    assert_eq!(
        manager.get_current_strategy(),
        LoadBalanceStrategy::RoundRobin
    );
}

#[test]
fn test_no_switch_round_robin_low_response_time() {
    let config = create_test_config();
    let mut metrics = create_test_metrics();

    let low_response_time = Duration::from_millis(50);
    metrics.avg_response_time = low_response_time.as_nanos() as u64;

    let mut manager = StrategyManager::new(config, metrics);
    manager.last_switch = long_ago();

    manager.switch_strategy();

    assert_eq!(
        manager.get_current_strategy(),
        LoadBalanceStrategy::RoundRobin
    );
}

#[test]
fn test_no_switch_least_avg_high_response_time() {
    let config = StrategyConfig {
        default_strategy: LoadBalanceStrategy::LeastAvgResponseTime,
        switch_interval: Duration::from_secs(5).as_millis() as u64,
        response_time_threshold: Duration::from_millis(100).as_millis() as u64,
    };
    let mut metrics = create_test_metrics();

    let high_response_time = Duration::from_millis(200);
    metrics.avg_response_time = high_response_time.as_nanos() as u64;

    let mut manager = StrategyManager::new(config, metrics);
    manager.last_switch = long_ago();

    manager.switch_strategy();

    assert_eq!(
        manager.get_current_strategy(),
        LoadBalanceStrategy::LeastAvgResponseTime
    );
}

#[test]
fn test_switch_strategy_too_soon() {
    let config = create_test_config();
    let mut metrics = create_test_metrics();

    let high_response_time = Duration::from_millis(200);
    metrics.avg_response_time = high_response_time.as_nanos() as u64;

    let mut manager = StrategyManager::new(config, metrics);

    manager.switch_strategy();

    assert_eq!(
        manager.get_current_strategy(),
        LoadBalanceStrategy::RoundRobin
    );
}

#[test]
fn test_response_time_threshold_boundary() {
    let config = create_test_config();
    let mut metrics = create_test_metrics();

    let threshold_response_time = Duration::from_millis(100);
    metrics.avg_response_time = threshold_response_time.as_nanos() as u64;

    let mut manager = StrategyManager::new(config, metrics);
    manager.last_switch = long_ago();

    manager.switch_strategy();

    assert_eq!(
        manager.get_current_strategy(),
        LoadBalanceStrategy::RoundRobin
    );
}

#[test]
fn test_multiple_switches() {
    let config = create_test_config();
    let metrics = create_test_metrics();
    let mut manager = StrategyManager::new(config, metrics);

    let high_response_time = Duration::from_millis(200);
    manager.metrics.avg_response_time = high_response_time.as_nanos() as u64;
    manager.last_switch = long_ago();

    manager.switch_strategy();
    assert_eq!(
        manager.get_current_strategy(),
        LoadBalanceStrategy::LeastAvgResponseTime
    );

    let low_response_time = Duration::from_millis(30);
    manager.metrics.avg_response_time = low_response_time.as_nanos() as u64;
    manager.last_switch = long_ago();

    manager.switch_strategy();
    assert_eq!(
        manager.get_current_strategy(),
        LoadBalanceStrategy::RoundRobin
    );
}

#[test]
fn switch_strategy_after_follows_interval_and_threshold() {
    let mut manager = StrategyManager::new(create_test_config(), create_test_metrics());
    manager.metrics.avg_response_time = 200_000_000;
    let created = manager.last_switch;
    let now = created + Duration::from_secs(5);
    // 4.999999999 s after the last switch: too soon, nothing changes.
    manager.switch_strategy_after(4_999_999_999, now);
    assert_eq!(manager.get_current_strategy(), LoadBalanceStrategy::RoundRobin);
    assert_eq!(manager.last_switch, created);
    // Exactly the interval: the switch happens and its time is recorded.
    manager.switch_strategy_after(5_000_000_000, now);
    assert_eq!(
        manager.get_current_strategy(),
        LoadBalanceStrategy::LeastAvgResponseTime
    );
    assert_eq!(manager.last_switch, now);
    // Same average again: no flip back, the time stays.
    let later = now + Duration::from_secs(6);
    manager.switch_strategy_after(6_000_000_000, later);
    assert_eq!(
        manager.get_current_strategy(),
        LoadBalanceStrategy::LeastAvgResponseTime
    );
    assert_eq!(manager.last_switch, now);
}

#[test]
fn too_soon_to_switch_compares_in_nanoseconds() {
    let manager = StrategyManager::new(create_test_config(), create_test_metrics());
    assert!(manager.too_soon_to_switch(0));
    assert!(manager.too_soon_to_switch(4_999_999_999));
    assert!(!manager.too_soon_to_switch(5_000_000_000));
}

#[test]
fn zero_switch_interval_is_never_too_soon() {
    let mut config = create_test_config();
    config.switch_interval = 0;
    let manager = StrategyManager::new(config, create_test_metrics());
    assert!(!manager.should_not_switch());
}

#[test]
fn zero_switch_interval_applies_rule_immediately() {
    let mut config = create_test_config();
    config.switch_interval = 0;
    let mut metrics = create_test_metrics();
    metrics.avg_response_time = 200_000_000;
    let mut manager = StrategyManager::new(config, metrics);
    let before = manager.last_switch;
    manager.switch_strategy();
    assert_eq!(
        manager.get_current_strategy(),
        LoadBalanceStrategy::LeastAvgResponseTime
    );
    assert!(manager.last_switch >= before);
    let kept = manager.last_switch;
    manager.switch_strategy();
    assert_eq!(
        manager.get_current_strategy(),
        LoadBalanceStrategy::LeastAvgResponseTime
    );
    assert_eq!(manager.last_switch, kept);
}

#[test]
fn switches_are_a_full_interval_apart() {
    let mut manager = StrategyManager::new(create_test_config(), create_test_metrics());
    let t0 = manager.last_switch;
    manager.metrics.avg_response_time = 200_000_000;
    let t1 = t0 + Duration::from_secs(5);
    manager.switch_strategy_after(5_000_000_000, t1);
    assert_eq!(
        manager.get_current_strategy(),
        LoadBalanceStrategy::LeastAvgResponseTime
    );
    assert_eq!(manager.last_switch, t1);
    // New measurements now ask for round robin, but the interval since t1 has
    // not passed.
    manager.metrics.avg_response_time = 30_000_000;
    manager.switch_strategy_after(4_999_999_999, t1 + Duration::from_millis(4999));
    assert_eq!(
        manager.get_current_strategy(),
        LoadBalanceStrategy::LeastAvgResponseTime
    );
    assert_eq!(manager.last_switch, t1);
    let t2 = t1 + Duration::from_secs(5);
    manager.switch_strategy_after(5_000_000_000, t2);
    assert_eq!(manager.get_current_strategy(), LoadBalanceStrategy::RoundRobin);
    assert_eq!(manager.last_switch, t2);
}
