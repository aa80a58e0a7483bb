//! Load-balancing strategies and the rule that moves between them.

use vstd::prelude::*;

verus! {

/// Number of nanoseconds in one millisecond.
pub const NANOS_PER_MILLI: u64 = 1_000_000;

/// How the load balancer picks the worker for the next request.
#[derive(Debug, Clone, Copy, PartialEq, Eq, Structural)]
pub enum LoadBalanceStrategy {
    /// Cycle through the workers in their configured order.
    RoundRobin,
    /// Pick the worker whose last reported average response time is lowest.
    LeastAvgResponseTime,
}

/// A duration given in milliseconds, expressed in nanoseconds.
pub open spec fn millis_as_nanos(millis: u64) -> int {
    millis * 1_000_000
}

/// Converts milliseconds to nanoseconds without loss.
pub fn millis_to_nanos(millis: u64) -> (r: u128)
    ensures
        r == millis_as_nanos(millis),
{
    proof {
        assert(millis * 1_000_000 <= u64::MAX * 1_000_000) by (nonlinear_arith);
    }
    (millis as u128) * (NANOS_PER_MILLI as u128)
}

/// The strategy the balancer moves to, if any, given the current strategy,
/// the average response time in nanoseconds and the threshold in milliseconds.
///
/// With no data yet (an average of zero) nothing changes. Round robin gives way
/// to least-average-response-time when the average is strictly above the
/// threshold; least-average-response-time returns to round robin when the
/// average is strictly below it.
pub open spec fn next_strategy(
    current: LoadBalanceStrategy,
    avg_response_nanos: u64,
    threshold_millis: u64,
) -> Option<LoadBalanceStrategy> {
    if avg_response_nanos == 0 {
        None
    } else {
        match current {
            LoadBalanceStrategy::RoundRobin => if avg_response_nanos > millis_as_nanos(threshold_millis) {
                Some(LoadBalanceStrategy::LeastAvgResponseTime)
            } else {
                None
            },
            LoadBalanceStrategy::LeastAvgResponseTime => if avg_response_nanos < millis_as_nanos(
                threshold_millis,
            ) {
                Some(LoadBalanceStrategy::RoundRobin)
            } else {
                None
            },
        }
    }
}

/// Computes [`next_strategy`].
pub fn decide_next_strategy(
    current: LoadBalanceStrategy,
    avg_response_nanos: u64,
    threshold_millis: u64,
) -> (r: Option<LoadBalanceStrategy>)
    ensures
        r == next_strategy(current, avg_response_nanos, threshold_millis),
{
    if avg_response_nanos == 0 {
        return None;
    }
    let threshold_nanos: u128 = millis_to_nanos(threshold_millis);
    let avg: u128 = avg_response_nanos as u128;
    match current {
        LoadBalanceStrategy::RoundRobin => {
            if avg > threshold_nanos {
                Some(LoadBalanceStrategy::LeastAvgResponseTime)
            } else {
                None
            }
        },
        LoadBalanceStrategy::LeastAvgResponseTime => {
            if avg < threshold_nanos {
                Some(LoadBalanceStrategy::RoundRobin)
            } else {
                None
            }
        },
    }
}

/// A switch always leads to the other strategy.
pub proof fn lemma_switch_changes_strategy(
    current: LoadBalanceStrategy,
    avg_response_nanos: u64,
    threshold_millis: u64,
)
    ensures
        next_strategy(current, avg_response_nanos, threshold_millis) matches Some(s) ==> s
            != current,
{
}

/// At an unchanged average response time the strategy never flips back:
/// once a switch has happened, the rule asks for no further switch.
pub proof fn lemma_no_flip_back(
    current: LoadBalanceStrategy,
    avg_response_nanos: u64,
    threshold_millis: u64,
)
    ensures
        next_strategy(current, avg_response_nanos, threshold_millis) matches Some(s)
            ==> next_strategy(s, avg_response_nanos, threshold_millis) is None,
{
}

/// An average exactly at the threshold never causes a switch, from either strategy.
pub proof fn lemma_threshold_is_stable(current: LoadBalanceStrategy, threshold_millis: u64)
    ensures
        threshold_millis * 1_000_000 <= u64::MAX ==> next_strategy(
            current,
            (threshold_millis * 1_000_000) as u64,
            threshold_millis,
        ) is None,
{
}

} // verus!
