//! Laws of worker selection and of the status table, stated over the spec
//! functions that the selection and table operations are specified with.

use crate::basic::next_index;
use crate::loadbalancer::load_balancer::{
    HealthResponseBody,
    apply_reports,
    round_robin_pick,
    wrapping_successor,
};
use crate::uri::forward_uri_text;
use crate::worker::health::{WorkerRoute, route_of};
use crate::worker::health::HealthResponseBody as WorkerHealthResponseBody;
use crate::loadbalancer::status_table::{
    StatusEntry,
    WorkerStatus,
    distinct_keys,
    has_key,
    insert_entry,
    key_index,
    lookup,
};
use vstd::arithmetic::div_mod::{
    lemma_add_mod_noop,
    lemma_fundamental_div_mod,
    lemma_mod_multiples_vanish,
    lemma_small_mod,
};
use vstd::prelude::*;

verus! {

/// From any counter value `c`, some offset below `n` lands on residue `j`.
proof fn lemma_offset_reaches(c: int, n: int, j: int) -> (k: int)
    requires
        n > 0,
        0 <= j < n,
        c >= 0,
    ensures
        0 <= k < n,
        (c + k) % n == j,
{
    let q = c / n;
    let r = c % n;
    lemma_fundamental_div_mod(c, n);
    lemma_small_mod(j as nat, n as nat);
    if j >= r {
        let k = j - r;
        assert(c + k == n * q + j);
        lemma_mod_multiples_vanish(q, j, n);
        k
    } else {
        let k = j - r + n;
        assert(c + k == n * (q + 1) + j) by (nonlinear_arith)
            requires
                c == n * q + r,
                k == j - r + n,
        ;
        lemma_mod_multiples_vanish(q + 1, j, n);
        k
    }
}

/// Round robin reaches every worker: whatever the counter stands at, each
/// worker is picked within the next `n` requests (`n` workers), as long as
/// the counter does not wrap meanwhile.
pub proof fn lemma_round_robin_visits_every_worker(hosts: Seq<Seq<char>>, counter: usize, j: int)
    requires
        hosts.len() > 0,
        0 <= j < hosts.len(),
        counter + hosts.len() <= usize::MAX + 1,
    ensures
        exists|k: int|
            0 <= k < hosts.len() && #[trigger] round_robin_pick(hosts, (counter + k) as usize)
                == hosts[j],
{
    let k = lemma_offset_reaches(counter as int, hosts.len() as int, j);
    assert(round_robin_pick(hosts, (counter + k) as usize) == hosts[j]);
}

/// Round robin repeats itself every `n` requests (`n` workers), as long as
/// the counter does not wrap meanwhile.
pub proof fn lemma_round_robin_period(hosts: Seq<Seq<char>>, counter: usize)
    requires
        hosts.len() > 0,
        counter + hosts.len() <= usize::MAX,
    ensures
        round_robin_pick(hosts, (counter + hosts.len()) as usize) == round_robin_pick(
            hosts,
            counter,
        ),
{
    let n = hosts.len() as int;
    lemma_mod_multiples_vanish(1, counter as int, n);
    assert(n * 1 + counter == counter + n);
}

/// The position of the first balancer after `k` choices from position `p`
/// over `n` workers.
pub open spec fn position_after(p: int, n: int, k: nat) -> int
    decreases k,
{
    if k == 0 {
        p
    } else {
        (position_after(p, n, (k - 1) as nat) + 1) % n
    }
}

/// One choice of the first balancer moves it as `position_after` says.
pub proof fn lemma_next_index_is_one_step(p: usize, n: nat)
    requires
        n > 0,
    ensures
        next_index(p, n) == position_after(p as int, n as int, 1),
{
    assert(position_after(p as int, n as int, 0) == p as int);
}

/// After `k` choices from position `p < n`, the first balancer stands at
/// `(p + k) mod n`.
pub proof fn lemma_position_after(p: int, n: int, k: nat)
    requires
        n > 0,
        0 <= p < n,
    ensures
        position_after(p, n, k) == (p + k) % n,
    decreases k,
{
    if k == 0 {
        lemma_small_mod(p as nat, n as nat);
    } else {
        lemma_position_after(p, n, (k - 1) as nat);
        lemma_add_mod_noop(p + k - 1, 1, n);
        lemma_small_mod(((p + k - 1) % n) as nat, n as nat);
        if n == 1 {
            assert(position_after(p, n, k) == 0);
            assert((p + k) % 1 == 0);
        } else {
            lemma_small_mod(1, n as nat);
        }
    }
}

/// The first balancer reaches every worker within `n` choices.
pub proof fn lemma_basic_visits_every_worker(p: int, n: int, j: int)
    requires
        n > 0,
        0 <= p < n,
        0 <= j < n,
    ensures
        exists|k: nat| k < n && #[trigger] position_after(p, n, k) == j,
{
    let k = lemma_offset_reaches(p, n, j);
    lemma_position_after(p, n, k as nat);
    assert(position_after(p, n, k as nat) == j);
}

/// Reading a worker's status right after recording it gives the recorded
/// status; other workers' statuses are untouched; addresses stay distinct.
pub proof fn lemma_lookup_after_insert(
    e: Seq<StatusEntry>,
    key: Seq<char>,
    status: WorkerStatus,
    other: Seq<char>,
)
    requires
        distinct_keys(e),
    ensures
        distinct_keys(insert_entry(e, key, status)),
        lookup(insert_entry(e, key, status), key) == Some(status),
        other != key ==> lookup(insert_entry(e, key, status), other) == lookup(e, other),
{
    let e2 = insert_entry(e, key, status);
    if has_key(e, key) {
        let w = key_index(e, key);
        assert(e2 == e.update(w, (key, status)));
        assert(distinct_keys(e2)) by {
            assert forall|a: int, b: int|
                0 <= a < e2.len() && 0 <= b < e2.len() && a != b implies e2[a].0 != e2[b].0 by {
                if a != w && b != w {
                    assert(e2[a] == e[a] && e2[b] == e[b]);
                } else if a == w {
                    assert(e2[b] == e[b]);
                    assert(e[w].0 == key);
                } else {
                    assert(e2[a] == e[a]);
                    assert(e[w].0 == key);
                }
            }
        }
        crate::loadbalancer::status_table::lemma_key_index_unique(e2, key, w);
        if other != key {
            if has_key(e, other) {
                let x = key_index(e, other);
                assert(e2[x] == e[x]);
                crate::loadbalancer::status_table::lemma_key_index_unique(e2, other, x);
            } else {
                if has_key(e2, other) {
                    let x = key_index(e2, other);
                    assert(e[x].0 == other);
                }
            }
        }
    } else {
        assert(e2 == e.push((key, status)));
        assert(distinct_keys(e2)) by {
            assert forall|a: int, b: int|
                0 <= a < e2.len() && 0 <= b < e2.len() && a != b implies e2[a].0 != e2[b].0 by {
                if a < e.len() && b < e.len() {
                    assert(e2[a] == e[a] && e2[b] == e[b]);
                } else if a < e.len() {
                    assert(e2[a] == e[a]);
                    if e[a].0 == key {
                        assert(has_key(e, key));
                    }
                } else {
                    assert(e2[b] == e[b]);
                    if e[b].0 == key {
                        assert(has_key(e, key));
                    }
                }
            }
        }
        crate::loadbalancer::status_table::lemma_key_index_unique(e2, key, e.len() as int);
        if other != key {
            if has_key(e, other) {
                let x = key_index(e, other);
                assert(e2[x] == e[x]);
                crate::loadbalancer::status_table::lemma_key_index_unique(e2, other, x);
            } else {
                if has_key(e2, other) {
                    let x = key_index(e2, other);
                    if x < e.len() {
                        assert(e[x].0 == other);
                    }
                }
            }
        }
    }
}

/// A health-check round adds and removes no address: when the addresses with
/// a status are exactly the configured workers, they stay exactly those
/// whatever the reports.
pub proof fn lemma_apply_reports_keeps_keys(
    e: Seq<StatusEntry>,
    hosts: Seq<Seq<char>>,
    reports: Seq<Option<WorkerStatus>>,
    n: nat,
)
    requires
        n <= hosts.len(),
        n <= reports.len(),
        forall|k: Seq<char>| #[trigger] has_key(e, k) <==> hosts.contains(k),
    ensures
        forall|k: Seq<char>|
            #[trigger] has_key(apply_reports(e, hosts, reports, n), k) <==> hosts.contains(k),
    decreases n,
{
    if n > 0 {
        lemma_apply_reports_keeps_keys(e, hosts, reports, (n - 1) as nat);
        let prev = apply_reports(e, hosts, reports, (n - 1) as nat);
        match reports[n - 1] {
            Some(st) => {
                assert forall|k: Seq<char>|
                    #[trigger] has_key(apply_reports(e, hosts, reports, n), k)
                        <==> hosts.contains(k) by {
                    crate::loadbalancer::status_table::lemma_insert_entry_keys(prev, hosts[n - 1], st, k);
                    assert(hosts.contains(hosts[n - 1]));
                }
            },
            None => {},
        }
    }
}

/// The status entries after health-check rounds `rounds[0..m]`, each round
/// applying its reports in worker order.
pub open spec fn apply_rounds(
    e: Seq<StatusEntry>,
    hosts: Seq<Seq<char>>,
    rounds: Seq<Seq<Option<WorkerStatus>>>,
    m: nat,
) -> Seq<StatusEntry>
    decreases m,
{
    if m == 0 {
        e
    } else {
        let prev = apply_rounds(e, hosts, rounds, (m - 1) as nat);
        apply_reports(prev, hosts, rounds[m - 1], rounds[m - 1].len())
    }
}

/// Any number of health-check rounds keep the addresses with a status
/// exactly the configured workers.
pub proof fn lemma_rounds_keep_keys(
    e: Seq<StatusEntry>,
    hosts: Seq<Seq<char>>,
    rounds: Seq<Seq<Option<WorkerStatus>>>,
    m: nat,
)
    requires
        m <= rounds.len(),
        forall|j: int| 0 <= j < rounds.len() ==> (#[trigger] rounds[j]).len() == hosts.len(),
        forall|k: Seq<char>| #[trigger] has_key(e, k) <==> hosts.contains(k),
    ensures
        forall|k: Seq<char>|
            #[trigger] has_key(apply_rounds(e, hosts, rounds, m), k) <==> hosts.contains(k),
    decreases m,
{
    if m > 0 {
        lemma_rounds_keep_keys(e, hosts, rounds, (m - 1) as nat);
        let prev = apply_rounds(e, hosts, rounds, (m - 1) as nat);
        let r = rounds[m - 1];
        assert(r.len() == hosts.len());
        lemma_apply_reports_keeps_keys(prev, hosts, r, r.len());
    }
}

/// A health-check round keeps one status per address.
pub proof fn lemma_apply_reports_distinct(
    e: Seq<StatusEntry>,
    hosts: Seq<Seq<char>>,
    reports: Seq<Option<WorkerStatus>>,
    n: nat,
)
    requires
        distinct_keys(e),
        n <= hosts.len(),
        n <= reports.len(),
    ensures
        distinct_keys(apply_reports(e, hosts, reports, n)),
    decreases n,
{
    if n > 0 {
        lemma_apply_reports_distinct(e, hosts, reports, (n - 1) as nat);
        let prev = apply_reports(e, hosts, reports, (n - 1) as nat);
        match reports[n - 1] {
            Some(st) => {
                lemma_lookup_after_insert(prev, hosts[n - 1], st, hosts[n - 1]);
            },
            None => {},
        }
    }
}

/// A worker that did not answer keeps its last known status: when no report
/// in a health-check round concerns address `k`, the status recorded for `k`
/// is the same after the round as before it.
pub proof fn lemma_unanswered_keeps_status(
    e: Seq<StatusEntry>,
    hosts: Seq<Seq<char>>,
    reports: Seq<Option<WorkerStatus>>,
    n: nat,
    k: Seq<char>,
)
    requires
        distinct_keys(e),
        n <= hosts.len(),
        n <= reports.len(),
        forall|j: int| 0 <= j < n && #[trigger] hosts[j] == k ==> reports[j] is None,
    ensures
        lookup(apply_reports(e, hosts, reports, n), k) == lookup(e, k),
    decreases n,
{
    if n > 0 {
        lemma_unanswered_keeps_status(e, hosts, reports, (n - 1) as nat, k);
        lemma_apply_reports_distinct(e, hosts, reports, (n - 1) as nat);
        let prev = apply_reports(e, hosts, reports, (n - 1) as nat);
        match reports[n - 1] {
            Some(st) => {
                assert(hosts[n - 1] != k);
                lemma_lookup_after_insert(prev, hosts[n - 1], st, k);
            },
            None => {},
        }
    }
}

/// A worker that answered has the status it reported after the round (its
/// last report in the round, when its address occurs more than once).
pub proof fn lemma_answered_records_report(
    e: Seq<StatusEntry>,
    hosts: Seq<Seq<char>>,
    reports: Seq<Option<WorkerStatus>>,
    n: nat,
    i: int,
    status: WorkerStatus,
)
    requires
        distinct_keys(e),
        n <= hosts.len(),
        n <= reports.len(),
        0 <= i < n,
        reports[i] == Some(status),
        forall|j: int| i < j < n && #[trigger] hosts[j] == hosts[i] ==> reports[j] is None,
    ensures
        lookup(apply_reports(e, hosts, reports, n), hosts[i]) == Some(status),
    decreases n,
{
    lemma_apply_reports_distinct(e, hosts, reports, (n - 1) as nat);
    let prev = apply_reports(e, hosts, reports, (n - 1) as nat);
    if i == n - 1 {
        lemma_lookup_after_insert(prev, hosts[i], status, hosts[i]);
    } else {
        lemma_answered_records_report(e, hosts, reports, (n - 1) as nat, i, status);
        match reports[n - 1] {
            Some(st) => {
                assert(hosts[n - 1] != hosts[i]);
                lemma_lookup_after_insert(prev, hosts[n - 1], st, hosts[i]);
            },
            None => {},
        }
    }
}

/// The round-robin counter moves on by exactly one per request, modulo 2^w
/// for a `w`-bit `usize`.
pub proof fn lemma_counter_advances_by_one(counter: usize)
    ensures
        wrapping_successor(counter) as int == (counter as int + 1) % (usize::MAX as int + 1),
{
    if counter < usize::MAX {
        lemma_small_mod((counter + 1) as nat, (usize::MAX as int + 1) as nat);
    } else {
        assert((usize::MAX as int + 1) % (usize::MAX as int + 1) == 0) by (nonlinear_arith);
    }
}

/// Two consecutive round-robin requests go to neighbouring workers: the
/// second to the worker after the first (wrapping to the first worker after
/// the last), as long as the counter does not wrap.
pub proof fn lemma_round_robin_next_neighbour(hosts: Seq<Seq<char>>, counter: usize)
    requires
        hosts.len() > 0,
        counter < usize::MAX,
    ensures
        round_robin_pick(hosts, wrapping_successor(counter)) == hosts[((counter as int)
            % (hosts.len() as int) + 1) % (hosts.len() as int)],
{
    let n = hosts.len() as int;
    lemma_add_mod_noop(counter as int, 1, n);
    if n == 1 {
        assert(((counter as int) % n + 1) % n == 0);
        assert(((counter as int) + 1) % n == 0);
    } else {
        lemma_small_mod(1, n as nat);
    }
}

/// The forwarding URI is `http://`, then the worker address, then the whole
/// path-and-query when there is one; nothing after the address otherwise.
pub proof fn lemma_forward_uri_text(addr: Seq<char>, path_and_query: Seq<char>)
    ensures
        forward_uri_text(addr, Some(path_and_query)) == seq!['h', 't', 't', 'p', ':', '/', '/']
            + addr + path_and_query,
        forward_uri_text(addr, None) == seq!['h', 't', 't', 'p', ':', '/', '/'] + addr,
        forward_uri_text(addr, Some(path_and_query)).len() == 7 + addr.len()
            + path_and_query.len(),
{
    reveal_strlit("http://");
    assert(forward_uri_text(addr, None) =~= seq!['h', 't', 't', 'p', ':', '/', '/'] + addr);
}

/// A worker answers with its health report exactly on the path `/health`,
/// and with the default answer on every other path.
pub proof fn lemma_route_is_health_exactly(path: Seq<char>)
    ensures
        route_of(path) == WorkerRoute::Health <==> path == seq!['/', 'h', 'e', 'a', 'l', 't', 'h'],
        path != seq!['/', 'h', 'e', 'a', 'l', 't', 'h'] ==> route_of(path) == WorkerRoute::Default,
{
    reveal_strlit("/health");
    assert("/health"@ =~= seq!['/', 'h', 'e', 'a', 'l', 't', 'h']);
}

/// A health report received with the fields a worker sent becomes a worker
/// status with exactly those values: the connection count and the average
/// response time in nanoseconds.
pub proof fn lemma_health_report_round_trip(
    sent: WorkerHealthResponseBody,
    received: HealthResponseBody,
)
    requires
        received.connection_count == sent.connection_count,
        received.avg_response_time == sent.avg_response_time,
    ensures
        <WorkerStatus as vstd::std_specs::convert::FromSpec<HealthResponseBody>>::from_spec(
            received,
        ) == (WorkerStatus {
            connection_count: sent.connection_count,
            avg_response_time: sent.avg_response_time,
        }),
{
}

} // verus!
