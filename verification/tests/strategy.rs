use trailblazer::loadbalancer::strategy::{decide_next_strategy, millis_to_nanos};
use trailblazer::loadbalancer::{LoadBalanceStrategy, StrategyController};

#[test]
fn decide_next_strategy_cases() {
    assert_eq!(decide_next_strategy(LoadBalanceStrategy::RoundRobin, 0, 100), None);
    assert_eq!(decide_next_strategy(LoadBalanceStrategy::LeastAvgResponseTime, 0, 100), None);
    assert_eq!(
        decide_next_strategy(LoadBalanceStrategy::RoundRobin, 100_000_001, 100),
        Some(LoadBalanceStrategy::LeastAvgResponseTime)
    );
    assert_eq!(decide_next_strategy(LoadBalanceStrategy::RoundRobin, 100_000_000, 100), None);
    assert_eq!(
        decide_next_strategy(LoadBalanceStrategy::LeastAvgResponseTime, 99_999_999, 100),
        Some(LoadBalanceStrategy::RoundRobin)
    );
    assert_eq!(decide_next_strategy(LoadBalanceStrategy::LeastAvgResponseTime, 100_000_000, 100), None);
    assert_eq!(decide_next_strategy(LoadBalanceStrategy::RoundRobin, u64::MAX, u64::MAX), None);
}

#[test]
fn millis_to_nanos_is_exact() {
    assert_eq!(millis_to_nanos(0), 0);
    assert_eq!(millis_to_nanos(1), 1_000_000);
    assert_eq!(millis_to_nanos(u64::MAX), u64::MAX as u128 * 1_000_000);
}

#[test]
fn controller_picks_by_whole_milliseconds() {
    assert_eq!(
        StrategyController::evaluate_strategy_by_avg_response_time(0),
        LoadBalanceStrategy::RoundRobin
    );
    assert_eq!(
        StrategyController::evaluate_strategy_by_avg_response_time(499_999_999),
        LoadBalanceStrategy::RoundRobin
    );
    assert_eq!(
        StrategyController::evaluate_strategy_by_avg_response_time(500_000_000),
        LoadBalanceStrategy::LeastAvgResponseTime
    );
}
