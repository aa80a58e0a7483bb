//! The strategy manager: keeps the current strategy and switches it from the
//! measured average response time, at most once per switch interval.

use crate::loadbalancer::lb_config::StrategyConfig;
use crate::loadbalancer::metrics::Metrics;
use crate::loadbalancer::strategy::{
    LoadBalanceStrategy,
    decide_next_strategy,
    millis_as_nanos,
    millis_to_nanos,
    next_strategy,
};
use std::time::{Duration, Instant};
use vstd::prelude::*;

verus! {

#[verifier::external_type_specification]
#[verifier::external_body]
pub struct ExInstant(Instant);

/// Wraps `std::time::Instant::now`: the current point of the monotonic
/// clock. Nothing is claimed of the value.
#[verifier::external_body]
fn instant_now() -> (r: Instant) {
    Instant::now()
}

/// Wraps `std::time::Instant::elapsed`: the time that has passed since
/// `since`. Nothing is claimed of the value, which depends on the clock.
#[verifier::external_body]
fn instant_elapsed(since: &Instant) -> (r: Duration) {
    since.elapsed()
}

/// Wraps `std::time::Duration::as_nanos`: the whole nanoseconds of `d`.
/// `Duration` is opaque here, so nothing is claimed of the value.
#[verifier::external_body]
fn duration_as_nanos(d: Duration) -> (r: u128) {
    d.as_nanos()
}

/// The nanoseconds that have passed since `since`, by the clock.
fn elapsed_nanos(since: &Instant) -> (r: u128) {
    duration_as_nanos(instant_elapsed(since))
}

/// Whether `elapsed_nanos` is still short of the switch interval.
pub open spec fn interval_not_elapsed(elapsed_nanos: u128, switch_interval_millis: u64) -> bool {
    elapsed_nanos < millis_as_nanos(switch_interval_millis)
}

/// The strategy after applying the switching rule once, the interval having
/// passed: the rule's choice when it asks for a switch, else the current one.
pub open spec fn strategy_after_rule(
    current: LoadBalanceStrategy,
    avg_response_nanos: u64,
    threshold_millis: u64,
) -> LoadBalanceStrategy {
    match next_strategy(current, avg_response_nanos, threshold_millis) {
        Some(s) => s,
        None => current,
    }
}

/// The manager after one application of the switching rule at time `now`,
/// `elapsed` nanoseconds after its last switch: unchanged while the interval
/// has not passed or the rule asks for no switch; otherwise on the new
/// strategy, with `now` as the time of the last switch.
pub open spec fn rule_step(m: StrategyManager, elapsed: u128, now: Instant) -> StrategyManager {
    if interval_not_elapsed(elapsed, m.config.switch_interval) {
        m
    } else {
        match next_strategy(m.current_strategy, m.metrics.avg_response_time, m.config.response_time_threshold) {
            Some(s) => StrategyManager { current_strategy: s, last_switch: now, ..m },
            None => m,
        }
    }
}

/// The manager with its metrics replaced: what recording responses between
/// two calls of the rule does.
pub open spec fn with_metrics(m: StrategyManager, metrics: Metrics) -> StrategyManager {
    StrategyManager { metrics, ..m }
}

/// At most one switch per switch interval: when a step of the rule changes
/// the strategy and, after any new measurements, a later step changes it
/// again, the first step set the time of the last switch to its own time, so
/// the second step is measured from that time and comes a full switch
/// interval or more after it.
pub proof fn lemma_switches_spaced(
    m0: StrategyManager,
    elapsed1: u128,
    now1: Instant,
    metrics: Metrics,
    elapsed2: u128,
    now2: Instant,
)
    requires
        rule_step(m0, elapsed1, now1).current_strategy != m0.current_strategy,
        rule_step(with_metrics(rule_step(m0, elapsed1, now1), metrics), elapsed2, now2).current_strategy
            != rule_step(m0, elapsed1, now1).current_strategy,
    ensures
        rule_step(m0, elapsed1, now1).last_switch == now1,
        with_metrics(rule_step(m0, elapsed1, now1), metrics).last_switch == now1,
        !interval_not_elapsed(elapsed1, m0.config.switch_interval),
        !interval_not_elapsed(elapsed2, m0.config.switch_interval),
        rule_step(with_metrics(rule_step(m0, elapsed1, now1), metrics), elapsed2, now2).last_switch
            == now2,
{
}

/// Decides and keeps the load-balancing strategy.
pub struct StrategyManager {
    pub current_strategy: LoadBalanceStrategy,
    /// The metrics whose average response time drives the decision.
    pub metrics: Metrics,
    /// When the strategy was set last.
    pub last_switch: Instant,
    pub config: StrategyConfig,
}

impl StrategyManager {
    /// A manager that starts with the configured default strategy.
    pub fn new(config: StrategyConfig, metrics: Metrics) -> (r: Self)
        ensures
            r.current_strategy == config.default_strategy,
            r.metrics == metrics,
            r.config == config,
    {
        StrategyManager {
            current_strategy: config.default_strategy,
            metrics,
            last_switch: instant_now(),
            config,
        }
    }

    /// The strategy in force.
    pub fn get_current_strategy(&self) -> (r: LoadBalanceStrategy)
        ensures
            r == self.current_strategy,
    {
        self.current_strategy
    }

    /// Whether the last switch is more recent than the switch interval,
    /// judged on `elapsed_nanos` nanoseconds since that switch.
    pub fn too_soon_to_switch(&self, elapsed_nanos: u128) -> (r: bool)
        ensures
            r == interval_not_elapsed(elapsed_nanos, self.config.switch_interval),
    {
        elapsed_nanos < millis_to_nanos(self.config.switch_interval)
    }

    /// Whether the last switch is more recent than the switch interval, by
    /// the clock.
    pub fn should_not_switch(&self) -> (r: bool)
        ensures
            self.config.switch_interval == 0 ==> !r,
    {
        let elapsed = elapsed_nanos(&self.last_switch);
        self.too_soon_to_switch(elapsed)
    }

    /// Applies the switching rule at time `now`, `elapsed_nanos` nanoseconds
    /// after the last switch: nothing happens while the switch interval has
    /// not passed; otherwise the strategy becomes `next_strategy(..)` of the
    /// current one, the metrics' average response time and the threshold,
    /// when that is a switch, and the time of the last switch becomes `now`.
    pub fn switch_strategy_after(&mut self, elapsed_nanos: u128, now: Instant)
        ensures
            *final(self) == rule_step(*old(self), elapsed_nanos, now),
            final(self).current_strategy != old(self).current_strategy ==> final(self).last_switch
                == now,
            final(self).metrics == old(self).metrics,
            final(self).config == old(self).config,
            final(self).current_strategy == (if interval_not_elapsed(
                elapsed_nanos,
                old(self).config.switch_interval,
            ) {
                old(self).current_strategy
            } else {
                strategy_after_rule(
                    old(self).current_strategy,
                    old(self).metrics.avg_response_time,
                    old(self).config.response_time_threshold,
                )
            }),
            final(self).current_strategy == old(self).current_strategy ==> final(self).last_switch
                == old(self).last_switch,
    {
        if self.too_soon_to_switch(elapsed_nanos) {
            return;
        }
        let decision = decide_next_strategy(
            self.current_strategy,
            self.metrics.avg_response_time,
            self.config.response_time_threshold,
        );
        if let Some(new_strategy) = decision {
            self.current_strategy = new_strategy;
            self.last_switch = now;
        }
    }

    /// Applies the switching rule with the time elapsed since the last switch
    /// read from the clock, and the clock's current time as the time of a
    /// switch: the outcome is one step of the rule for those readings.
    /// Whatever the clock says, the strategy either stays or becomes the one
    /// the rule gives for the current average; with a zero switch interval the
    /// rule always applies. The time of the last switch is kept unless the
    /// strategy changes.
    pub fn switch_strategy(&mut self)
        ensures
            exists|elapsed: u128, now: Instant|
                *final(self) == #[trigger] rule_step(*old(self), elapsed, now),
            final(self).metrics == old(self).metrics,
            final(self).config == old(self).config,
            final(self).current_strategy == old(self).current_strategy || next_strategy(
                old(self).current_strategy,
                old(self).metrics.avg_response_time,
                old(self).config.response_time_threshold,
            ) == Some(final(self).current_strategy),
            old(self).config.switch_interval == 0 ==> final(self).current_strategy
                == strategy_after_rule(
                old(self).current_strategy,
                old(self).metrics.avg_response_time,
                old(self).config.response_time_threshold,
            ),
            final(self).current_strategy == old(self).current_strategy ==> final(self).last_switch
                == old(self).last_switch,
    {
        let elapsed = elapsed_nanos(&self.last_switch);
        let now = instant_now();
        let ghost before = *self;
        self.switch_strategy_after(elapsed, now);
        proof {
            assert(*self == rule_step(before, elapsed, now));
        }
    }
}

/// Picks a strategy from an average response time alone: round robin below
/// 500 whole milliseconds, least-average-response-time from there on.
pub struct StrategyController {}

/// The strategy that [`StrategyController`] picks for an average response
/// time of `avg_response_nanos` nanoseconds.
pub open spec fn strategy_for_avg(avg_response_nanos: u128) -> LoadBalanceStrategy {
    if avg_response_nanos / 1_000_000 < 500 {
        LoadBalanceStrategy::RoundRobin
    } else {
        LoadBalanceStrategy::LeastAvgResponseTime
    }
}

impl StrategyController {
    /// Chooses the strategy for an average response time given in
    /// nanoseconds.
    pub fn evaluate_strategy_by_avg_response_time(avg_response_nanos: u128) -> (r:
        LoadBalanceStrategy)
        ensures
            r == strategy_for_avg(avg_response_nanos),
    {
        if avg_response_nanos / 1_000_000 < 500 {
            LoadBalanceStrategy::RoundRobin
        } else {
            LoadBalanceStrategy::LeastAvgResponseTime
        }
    }
}

} // verus!
