//! The load balancer: the workers it knows, their last reported status and
//! the choice of the worker for each request.

use crate::loadbalancer::lb_config::LoadBalancerConfig;
use crate::loadbalancer::metrics::Metrics;
use crate::loadbalancer::status_table::{
    StatusEntry,
    WorkerStatus,
    WorkerStatusTable,
    has_key,
    insert_entry,
    is_first_min,
    least_recorded,
    lemma_first_min_least,
    lemma_insert_entry_keys,
    lookup,
    distinct_keys,
};
use crate::loadbalancer::strategy::{LoadBalanceStrategy, next_strategy};
use crate::loadbalancer::strategy_manager::{StrategyManager, rule_step, strategy_after_rule};
use std::time::Instant;
use crate::text::concat2;
use crate::uri::{forward_uri_text, opt_str_view, parse_outcome, parse_worker_uri};
use vstd::prelude::*;

verus! {

#[verifier::external_type_specification]
#[verifier::external_body]
pub struct ExHyperError(hyper::Error);

#[verifier::external_type_specification]
#[verifier::external_body]
pub struct ExIoError(std::io::Error);

/// What can go wrong in the load balancer.
#[derive(Debug)]
pub enum LoadBalancerError {
    ConfigError,
    HyperError(hyper::Error),
    IoError(std::io::Error),
    UnexpectedError,
    WorkerError(String),
    StrategyError(String),
}

/// `text` begins with `prefix`.
pub open spec fn starts_with(text: Seq<char>, prefix: Seq<char>) -> bool {
    prefix.len() <= text.len() && text.subrange(0, prefix.len() as int) == prefix
}

impl LoadBalancerError {
    /// The human-readable message of the error.
    pub fn message(&self) -> (r: String)
        ensures
            match self {
                LoadBalancerError::ConfigError => r@ == "Configuration error"@,
                LoadBalancerError::HyperError(_) => starts_with(r@, "Network error: "@),
                LoadBalancerError::IoError(_) => starts_with(r@, "IO error: "@),
                LoadBalancerError::UnexpectedError => r@ == "Unexpected Error"@,
                LoadBalancerError::WorkerError(s) => r@ == "Worker error: "@ + s@,
                LoadBalancerError::StrategyError(s) => r@ == "Strategy error: "@ + s@,
            },
    {
        match self {
            LoadBalancerError::ConfigError => String::from_str("Configuration error"),
            LoadBalancerError::HyperError(e) => {
                let detail = e.to_string();
                let r = concat2("Network error: ", detail.as_str());
                proof {
                    assert(r@.subrange(0, "Network error: "@.len() as int) =~= "Network error: "@);
                }
                r
            },
            LoadBalancerError::IoError(e) => {
                let detail = e.to_string();
                let r = concat2("IO error: ", detail.as_str());
                proof {
                    assert(r@.subrange(0, "IO error: "@.len() as int) =~= "IO error: "@);
                }
                r
            },
            LoadBalancerError::UnexpectedError => String::from_str("Unexpected Error"),
            LoadBalancerError::WorkerError(s) => {
                let r = concat2("Worker error: ", s.as_str());
                r
            },
            LoadBalancerError::StrategyError(s) => {
                let r = concat2("Strategy error: ", s.as_str());
                r
            },
        }
    }
}

/// A worker's health report as it arrives over the wire.
#[derive(Debug, Clone, Copy, PartialEq, Eq)]
pub struct HealthResponseBody {
    pub connection_count: usize,
    /// Average response time in nanoseconds.
    pub avg_response_time: u64,
}

impl From<HealthResponseBody> for WorkerStatus {
    fn from(value: HealthResponseBody) -> (r: Self) {
        WorkerStatus {
            connection_count: value.connection_count,
            avg_response_time: value.avg_response_time,
        }
    }
}

impl vstd::std_specs::convert::FromSpecImpl<HealthResponseBody> for WorkerStatus {
    open spec fn obeys_from_spec() -> bool {
        true
    }

    open spec fn from_spec(v: HealthResponseBody) -> Self {
        WorkerStatus { connection_count: v.connection_count, avg_response_time: v.avg_response_time }
    }
}

/// Whether an HTTP status code counts as success (the 2xx range).
pub open spec fn is_success_status(code: u16) -> bool {
    200 <= code <= 299
}

/// Judges the status code of a worker's health response: success codes pass,
/// any other is a worker error.
pub fn check_health_status(code: u16) -> (r: Result<(), LoadBalancerError>)
    ensures
        is_success_status(code) ==> r is Ok,
        !is_success_status(code) ==> (r matches Err(LoadBalancerError::WorkerError(m)) && m@
            == "Worker returned non-200 status code"@),
{
    if 200 <= code && code <= 299 {
        Ok(())
    } else {
        Err(LoadBalancerError::WorkerError(String::from_str("Worker returned non-200 status code")))
    }
}

/// The views of a vector of strings.
pub open spec fn string_views(v: Seq<String>) -> Seq<Seq<char>> {
    v.map_values(|s: String| s@)
}

/// Copies a vector of strings.
fn clone_strings(v: &Vec<String>) -> (r: Vec<String>)
    ensures
        string_views(r@) == string_views(v@),
{
    let mut r: Vec<String> = Vec::new();
    let n = v.len();
    let mut i: usize = 0;
    while i < n
        invariant
            n == v@.len(),
            i <= n,
            r@.len() == i,
            forall|j: int| 0 <= j < i ==> r@[j]@ == v@[j]@,
        decreases n - i,
    {
        r.push(v[i].clone());
        i = i + 1;
    }
    assert(string_views(r@) =~= string_views(v@));
    r
}

/// `counter + 1`, wrapping to zero after `usize::MAX`.
pub open spec fn wrapping_successor(counter: usize) -> usize {
    if counter == usize::MAX {
        0
    } else {
        (counter + 1) as usize
    }
}

/// The worker chosen by round robin when the request counter stands at
/// `counter`.
pub open spec fn round_robin_pick(hosts: Seq<Seq<char>>, counter: usize) -> Seq<char> {
    hosts[(counter as int) % (hosts.len() as int)]
}

/// The status entries after applying the health reports of the first `k`
/// workers: a worker that answered gets its report recorded, the others keep
/// their entry.
pub open spec fn apply_reports(
    e: Seq<StatusEntry>,
    hosts: Seq<Seq<char>>,
    reports: Seq<Option<WorkerStatus>>,
    k: nat,
) -> Seq<StatusEntry>
    decreases k,
{
    if k == 0 {
        e
    } else {
        let prev = apply_reports(e, hosts, reports, (k - 1) as nat);
        match reports[k - 1] {
            Some(s) => insert_entry(prev, hosts[k - 1], s),
            None => prev,
        }
    }
}

/// Spreads requests over a fixed set of workers.
pub struct LoadBalancer {
    worker_hosts: Vec<String>,
    worker_status: WorkerStatusTable,
    current_worker: usize,
    strategy_manager: StrategyManager,
    config: LoadBalancerConfig,
}

impl LoadBalancer {
    /// The worker addresses, in configured order.
    pub closed spec fn hosts(&self) -> Seq<Seq<char>> {
        string_views(self.worker_hosts@)
    }

    /// The last known status of each worker, in table order.
    pub closed spec fn status_entries(&self) -> Seq<StatusEntry> {
        self.worker_status.entries()
    }

    /// The round-robin request counter.
    pub closed spec fn counter(&self) -> usize {
        self.current_worker
    }

    /// The strategy manager (and through it the metrics).
    pub closed spec fn manager(&self) -> StrategyManager {
        self.strategy_manager
    }

    /// The configuration the balancer was built from.
    pub closed spec fn settings(&self) -> LoadBalancerConfig {
        self.config
    }

    /// The balancer's invariant: at least one worker, a well-formed status
    /// table, a status for every worker and for nothing else.
    pub closed spec fn wf(&self) -> bool {
        &&& self.worker_hosts@.len() > 0
        &&& self.worker_status.wf()
        &&& forall|i: int|
            0 <= i < self.worker_hosts@.len() ==> has_key(
                self.worker_status.entries(),
                #[trigger] self.worker_hosts@[i]@,
            )
        &&& forall|k: Seq<char>|
            has_key(self.worker_status.entries(), k) ==> #[trigger] self.hosts().contains(k)
    }

    /// What the invariant gives callers: at least one worker, one status
    /// entry per address, and the addresses with a status are exactly the
    /// configured workers.
    pub proof fn lemma_wf_keys(self)
        requires
            self.wf(),
        ensures
            self.hosts().len() > 0,
            distinct_keys(self.status_entries()),
            forall|k: Seq<char>|
                #[trigger] has_key(self.status_entries(), k) <==> self.hosts().contains(k),
    {
        self.worker_status.lemma_wf_distinct();
        assert forall|k: Seq<char>|
            #[trigger] has_key(self.status_entries(), k) <==> self.hosts().contains(k) by {
            if self.hosts().contains(k) {
                let j = choose|j: int| 0 <= j < self.hosts().len() && self.hosts()[j] == k;
                assert(self.worker_hosts@[j]@ == k);
            }
        }
    }

    /// A balancer over the configured workers, each with a zero status, the
    /// round-robin counter at zero. A configuration without workers is
    /// refused with `ConfigError`.
    pub fn new(config: LoadBalancerConfig, strategy_manager: StrategyManager) -> (r: Result<
        Self,
        LoadBalancerError,
    >)
        ensures
            config.workers@.len() == 0 <==> r is Err,
            r matches Err(e) ==> e is ConfigError,
            r matches Ok(lb) ==> {
                &&& lb.wf()
                &&& lb.hosts() == string_views(config.workers@)
                &&& lb.counter() == 0
                &&& lb.manager() == strategy_manager
                &&& lb.settings() == config
                &&& forall|k: Seq<char>|
                    has_key(lb.status_entries(), k) <==> lb.hosts().contains(k)
                &&& forall|i: int|
                    0 <= i < lb.status_entries().len() ==> #[trigger] lb.status_entries()[i].1
                        == WorkerStatus::zero_spec()
            },
    {
        if config.workers.len() == 0 {
            return Err(LoadBalancerError::ConfigError);
        }
        let worker_hosts = clone_strings(&config.workers);
        let mut table = WorkerStatusTable::new();
        let n = worker_hosts.len();
        let mut i: usize = 0;
        while i < n
            invariant
                n == worker_hosts@.len(),
                i <= n,
                table.wf(),
                forall|j: int| 0 <= j < i ==> has_key(table.entries(), #[trigger] worker_hosts@[j]@),
                forall|k: Seq<char>|
                    has_key(table.entries(), k) ==> exists|j: int|
                        0 <= j < i && #[trigger] worker_hosts@[j]@ == k,
                forall|j: int|
                    0 <= j < table.entries().len() ==> #[trigger] table.entries()[j].1
                        == WorkerStatus::zero_spec(),
            decreases n - i,
        {
            let ghost before = table.entries();
            let host = worker_hosts[i].clone();
            let ghost hv = host@;
            table.insert(host, WorkerStatus::zero());
            proof {
                let after = table.entries();
                assert forall|k: Seq<char>| #[trigger] has_key(after, k) <==> has_key(before, k)
                    || k == hv by {
                    lemma_insert_entry_keys(before, hv, WorkerStatus::zero_spec(), k);
                }
                assert(has_key(after, worker_hosts@[i as int]@));
                assert forall|k: Seq<char>| has_key(after, k) implies exists|j: int|
                    0 <= j < i + 1 && #[trigger] worker_hosts@[j]@ == k by {
                    if k == hv {
                        assert(worker_hosts@[i as int]@ == k);
                    } else {
                        assert(has_key(before, k));
                    }
                }
            }
            i = i + 1;
        }
        let lb = LoadBalancer {
            worker_hosts,
            worker_status: table,
            current_worker: 0,
            strategy_manager,
            config,
        };
        proof {
            assert forall|k: Seq<char>| has_key(lb.status_entries(), k) <==> lb.hosts().contains(
                k,
            ) by {
                if has_key(lb.status_entries(), k) {
                    let j = choose|j: int| 0 <= j < n && #[trigger] lb.worker_hosts@[j]@ == k;
                    assert(lb.hosts()[j] == k);
                }
                if lb.hosts().contains(k) {
                    let j = choose|j: int| 0 <= j < lb.hosts().len() && lb.hosts()[j] == k;
                    assert(lb.worker_hosts@[j]@ == k);
                }
            }
        }
        Ok(lb)
    }

    /// Reading a worker's status right after `update_worker_status` recorded
    /// it gives the recorded status, and leaves every other worker's status as
    /// it was.
    pub proof fn lemma_status_read_after_write(
        before: LoadBalancer,
        after: LoadBalancer,
        host: Seq<char>,
        status: WorkerStatus,
        other: Seq<char>,
    )
        requires
            before.wf(),
            after.status_entries() == insert_entry(before.status_entries(), host, status),
        ensures
            lookup(after.status_entries(), host) == Some(status),
            other != host ==> lookup(after.status_entries(), other) == lookup(
                before.status_entries(),
                other,
            ),
    {
        before.worker_status.lemma_wf_distinct();
        crate::laws::lemma_lookup_after_insert(before.status_entries(), host, status, other);
    }

    /// Whatever the strategy, the worker chosen is a configured worker.
    pub proof fn lemma_choice_is_known(
        before: LoadBalancer,
        chosen: Seq<char>,
    )
        requires
            before.wf(),
            before.manager().current_strategy == LoadBalanceStrategy::RoundRobin ==> chosen
                == round_robin_pick(before.hosts(), before.counter()),
            before.manager().current_strategy == LoadBalanceStrategy::LeastAvgResponseTime
                ==> exists|i: int|
                is_first_min(before.status_entries(), i) && #[trigger] before.status_entries()[i].0
                    == chosen,
        ensures
            before.hosts().contains(chosen),
    {
        before.lemma_wf_keys();
        if before.manager().current_strategy == LoadBalanceStrategy::RoundRobin {
            let n = before.hosts().len() as int;
            let j = (before.counter() as int) % n;
            assert(before.hosts()[j] == chosen);
        } else {
            let i = choose|i: int|
                is_first_min(before.status_entries(), i) && #[trigger] before.status_entries()[i].0
                    == chosen;
            assert(before.status_entries()[i].0 == chosen);
        }
    }

    /// The worker addresses, in configured order.
    pub fn worker_hosts(&self) -> (r: &Vec<String>)
        ensures
            string_views(r@) == self.hosts(),
    {
        &self.worker_hosts
    }

    /// The strategy manager.
    pub fn strategy_manager(&self) -> (r: &StrategyManager)
        ensures
            *r == self.manager(),
    {
        &self.strategy_manager
    }

    /// The metrics the strategy manager decides from.
    pub fn metrics(&self) -> (r: &Metrics)
        ensures
            *r == self.manager().metrics,
    {
        &self.strategy_manager.metrics
    }

    /// The configuration.
    pub fn config(&self) -> (r: &LoadBalancerConfig)
        ensures
            *r == self.settings(),
    {
        &self.config
    }

    /// The last known status of worker `host`.
    pub fn worker_status(&self, host: &String) -> (r: Option<WorkerStatus>)
        requires
            self.wf(),
        ensures
            r == lookup(self.status_entries(), host@),
    {
        self.worker_status.get(host)
    }

    /// Records the status that worker `host` reported; `host` is one of the
    /// configured workers.
    pub fn update_worker_status(&mut self, host: String, status: WorkerStatus)
        requires
            old(self).wf(),
            old(self).hosts().contains(host@),
        ensures
            final(self).wf(),
            final(self).status_entries() == insert_entry(old(self).status_entries(), host@, status),
            final(self).hosts() == old(self).hosts(),
            final(self).counter() == old(self).counter(),
            final(self).manager() == old(self).manager(),
            final(self).settings() == old(self).settings(),
    {
        let ghost before = self.worker_status.entries();
        let ghost hv = host@;
        self.worker_status.insert(host, status);
        proof {
            let after = self.worker_status.entries();
            assert forall|k: Seq<char>| #[trigger] has_key(after, k) <==> has_key(before, k) || k
                == hv by {
                lemma_insert_entry_keys(before, hv, status, k);
            }
            assert forall|i: int| 0 <= i < self.worker_hosts@.len() implies has_key(
                after,
                #[trigger] self.worker_hosts@[i]@,
            ) by {
                assert(has_key(before, self.worker_hosts@[i]@));
            }
            assert forall|k: Seq<char>| has_key(after, k) implies #[trigger] self.hosts().contains(
                k,
            ) by {
                if k != hv {
                    assert(has_key(before, k));
                }
            }
        }
    }

    /// Records the outcome of one round of health checks: `reports[i]` is the
    /// status worker `i` reported, or `None` when it could not be reached or
    /// answered badly. Each report is recorded in worker order.
    pub fn update_worker_connection_count(&mut self, reports: &Vec<Option<WorkerStatus>>)
        requires
            old(self).wf(),
            reports@.len() == old(self).hosts().len(),
        ensures
            final(self).wf(),
            forall|k: Seq<char>|
                #[trigger] has_key(final(self).status_entries(), k) <==> old(
                    self,
                ).hosts().contains(k),
            final(self).status_entries() == apply_reports(
                old(self).status_entries(),
                old(self).hosts(),
                reports@,
                reports@.len(),
            ),
            forall|k: Seq<char>|
                (forall|j: int|
                    0 <= j < reports@.len() && #[trigger] old(self).hosts()[j] == k
                        ==> reports@[j] is None) ==> #[trigger] lookup(
                    final(self).status_entries(),
                    k,
                ) == lookup(old(self).status_entries(), k),
            forall|i: int|
                0 <= i < reports@.len() && (#[trigger] reports@[i]) is Some && (forall|j: int|
                    i < j < reports@.len() && #[trigger] old(self).hosts()[j] == old(
                        self,
                    ).hosts()[i] ==> reports@[j] is None) ==> lookup(
                    final(self).status_entries(),
                    old(self).hosts()[i],
                ) == reports@[i],
            final(self).hosts() == old(self).hosts(),
            final(self).counter() == old(self).counter(),
            final(self).manager() == old(self).manager(),
            final(self).settings() == old(self).settings(),
    {
        let n = self.worker_hosts.len();
        let mut i: usize = 0;
        while i < n
            invariant
                n == self.worker_hosts@.len(),
                n == reports@.len(),
                i <= n,
                self.wf(),
                self.hosts() == old(self).hosts(),
                self.counter() == old(self).counter(),
                self.manager() == old(self).manager(),
                self.settings() == old(self).settings(),
                self.status_entries() == apply_reports(
                    old(self).status_entries(),
                    old(self).hosts(),
                    reports@,
                    i as nat,
                ),
            decreases n - i,
        {
            match reports[i] {
                Some(status) => {
                    let host = self.worker_hosts[i].clone();
                    proof {
                        assert(self.hosts()[i as int] == host@);
                    }
                    self.update_worker_status(host, status);
                },
                None => {},
            }
            assert(self.worker_hosts@.len() == self.hosts().len());
            i = i + 1;
        }
        proof {
            self.lemma_wf_keys();
            let before = old(self).status_entries();
            let hs = old(self).hosts();
            old(self).lemma_wf_keys();
            assert forall|k: Seq<char>|
                (forall|j: int|
                    0 <= j < reports@.len() && #[trigger] hs[j] == k ==> reports@[j] is None)
                    implies #[trigger] lookup(self.status_entries(), k) == lookup(before, k) by {
                crate::laws::lemma_unanswered_keeps_status(before, hs, reports@, n as nat, k);
            }
            assert forall|i: int|
                0 <= i < reports@.len() && (#[trigger] reports@[i]) is Some && (forall|j: int|
                    i < j < reports@.len() && #[trigger] hs[j] == hs[i] ==> reports@[j] is None)
                    implies lookup(self.status_entries(), hs[i]) == reports@[i] by {
                crate::laws::lemma_answered_records_report(
                    before,
                    hs,
                    reports@,
                    n as nat,
                    i,
                    reports@[i].unwrap(),
                );
            }
        }
    }

    /// Records one measured response time in the metrics (see
    /// `Metrics::record_response_time`).
    pub fn record_response_time(&mut self, duration_nanos: u128, blended_average: u64)
        requires
            old(self).wf(),
        ensures
            final(self).wf(),
            final(self).manager().metrics.avg_response_time == (if old(
                self,
            ).manager().metrics.avg_response_time == 0 {
                crate::loadbalancer::metrics::saturate_u64(duration_nanos)
            } else {
                blended_average
            }),
            final(self).manager().current_strategy == old(self).manager().current_strategy,
            final(self).manager().config == old(self).manager().config,
            final(self).hosts() == old(self).hosts(),
            final(self).status_entries() == old(self).status_entries(),
            final(self).counter() == old(self).counter(),
            final(self).settings() == old(self).settings(),
    {
        self.strategy_manager.metrics.record_response_time(duration_nanos, blended_average);
        proof {
            assert(self.hosts() == old(self).hosts());
            assert forall|k: Seq<char>| has_key(self.worker_status.entries(), k) implies #[trigger] self.hosts().contains(k) by {
                assert(has_key(old(self).worker_status.entries(), k));
            }
        }
    }

    /// Lets the strategy manager switch strategy if the rule asks for it (see
    /// `StrategyManager::switch_strategy`): the manager takes one step of the
    /// rule for the clock's readings; with a zero switch interval the rule
    /// always applies, and the time of the last switch is kept unless the
    /// strategy changes.
    pub fn switch_strategy(&mut self)
        requires
            old(self).wf(),
        ensures
            final(self).wf(),
            exists|elapsed: u128, now: Instant|
                final(self).manager() == #[trigger] rule_step(old(self).manager(), elapsed, now),
            final(self).manager().metrics == old(self).manager().metrics,
            final(self).manager().config == old(self).manager().config,
            final(self).manager().current_strategy == old(self).manager().current_strategy
                || next_strategy(
                old(self).manager().current_strategy,
                old(self).manager().metrics.avg_response_time,
                old(self).manager().config.response_time_threshold,
            ) == Some(final(self).manager().current_strategy),
            old(self).manager().config.switch_interval == 0 ==> final(self).manager().current_strategy
                == strategy_after_rule(
                old(self).manager().current_strategy,
                old(self).manager().metrics.avg_response_time,
                old(self).manager().config.response_time_threshold,
            ),
            final(self).manager().current_strategy == old(self).manager().current_strategy
                ==> final(self).manager().last_switch == old(self).manager().last_switch,
            final(self).hosts() == old(self).hosts(),
            final(self).status_entries() == old(self).status_entries(),
            final(self).counter() == old(self).counter(),
            final(self).settings() == old(self).settings(),
    {
        self.strategy_manager.switch_strategy();
        proof {
            assert(self.hosts() == old(self).hosts());
            assert forall|k: Seq<char>| has_key(self.worker_status.entries(), k) implies #[trigger] self.hosts().contains(k) by {
                assert(has_key(old(self).worker_status.entries(), k));
            }
        }
    }

    /// Chooses the worker for the next request by the strategy in force.
    ///
    /// Round robin takes the worker at the request counter modulo the number
    /// of workers and advances the counter (wrapping after `usize::MAX`).
    /// Least-average-response-time takes the worker whose last reported
    /// average is lowest, the first such one in table order, and leaves the
    /// counter alone.
    pub fn get_next_worker(&mut self) -> (r: String)
        requires
            old(self).wf(),
        ensures
            final(self).wf(),
            final(self).hosts() == old(self).hosts(),
            final(self).status_entries() == old(self).status_entries(),
            final(self).manager() == old(self).manager(),
            final(self).settings() == old(self).settings(),
            old(self).hosts().contains(r@),
            old(self).manager().current_strategy == LoadBalanceStrategy::RoundRobin ==> {
                &&& r@ == round_robin_pick(old(self).hosts(), old(self).counter())
                &&& final(self).counter() == wrapping_successor(old(self).counter())
                &&& final(self).counter() as int == (old(self).counter() as int + 1) % (
                usize::MAX as int + 1)
            },
            old(self).manager().current_strategy == LoadBalanceStrategy::LeastAvgResponseTime
                ==> {
                &&& exists|i: int|
                    is_first_min(old(self).status_entries(), i) && #[trigger] old(
                        self,
                    ).status_entries()[i].0 == r@
                &&& least_recorded(old(self).status_entries(), r@)
                &&& final(self).counter() == old(self).counter()
            },
    {
        proof {
            self.lemma_wf_keys();
            crate::laws::lemma_counter_advances_by_one(self.current_worker);
        }
        match self.strategy_manager.get_current_strategy() {
            LoadBalanceStrategy::RoundRobin => {
                let n = self.worker_hosts.len();
                let idx = self.current_worker % n;
                self.current_worker = self.current_worker.wrapping_add(1);
                let r = self.worker_hosts[idx].clone();
                proof {
                    assert(self.hosts()[idx as int] == r@);
                }
                r
            },
            LoadBalanceStrategy::LeastAvgResponseTime => {
                proof {
                    assert(has_key(self.worker_status.entries(), self.worker_hosts@[0]@));
                }
                let chosen = self.worker_status.least_avg_key();
                proof {
                    let e = self.worker_status.entries();
                    let w = choose|x: int| 0 <= x < e.len() && #[trigger] e[x].0 == self.worker_hosts@[0]@;
                    assert(e.len() > 0);
                }
                match chosen {
                    Some(host) => {
                        proof {
                            let e = self.worker_status.entries();
                            let i = choose|i: int| is_first_min(e, i) && #[trigger] e[i].0 == host@;
                            lemma_first_min_least(e, i);
                            assert(has_key(e, host@));
                        }
                        host
                    },
                    None => self.worker_hosts[0].clone(),
                }
            },
        }
    }

    /// Chooses the worker for the next request (as `get_next_worker`) and
    /// builds the URI the request is forwarded to: `http://`, the worker's
    /// address, then `path_and_query`. Fails when that text is not a URI.
    pub fn forward_request(&mut self, path_and_query: Option<&str>) -> (r: Result<
        hyper::Uri,
        hyper::http::uri::InvalidUri,
    >)
        requires
            old(self).wf(),
        ensures
            final(self).wf(),
            final(self).hosts() == old(self).hosts(),
            final(self).status_entries() == old(self).status_entries(),
            final(self).manager() == old(self).manager(),
            final(self).settings() == old(self).settings(),
            old(self).manager().current_strategy == LoadBalanceStrategy::RoundRobin ==> {
                &&& parse_outcome(
                    r,
                    forward_uri_text(
                        round_robin_pick(old(self).hosts(), old(self).counter()),
                        opt_str_view(path_and_query),
                    ),
                )
                &&& final(self).counter() == wrapping_successor(old(self).counter())
                &&& final(self).counter() as int == (old(self).counter() as int + 1) % (
                usize::MAX as int + 1)
            },
            old(self).manager().current_strategy == LoadBalanceStrategy::LeastAvgResponseTime
                ==> {
                &&& exists|i: int|
                    is_first_min(old(self).status_entries(), i) && parse_outcome(
                        r,
                        forward_uri_text(
                            #[trigger] old(self).status_entries()[i].0,
                            opt_str_view(path_and_query),
                        ),
                    )
                &&& final(self).counter() == old(self).counter()
            },
    {
        proof {
            crate::laws::lemma_counter_advances_by_one(self.current_worker);
        }
        let worker_addr = self.get_next_worker();
        parse_worker_uri(worker_addr.as_str(), path_and_query)
    }
}

} // verus!
