//! The last known status of each worker, keyed by worker address.

use vstd::prelude::*;

verus! {

/// What the load balancer knows of one worker from its last health report.
#[derive(Debug, Clone, Copy, PartialEq, Eq, Structural)]
pub struct WorkerStatus {
    pub connection_count: usize,
    /// Average response time reported by the worker, in nanoseconds.
    pub avg_response_time: u64,
}

impl WorkerStatus {
    /// The status of a worker that has not reported yet.
    pub open spec fn zero_spec() -> Self {
        WorkerStatus { connection_count: 0, avg_response_time: 0 }
    }

    /// The status assumed for a worker that has not reported yet.
    pub fn zero() -> (r: Self)
        ensures
            r == Self::zero_spec(),
    {
        WorkerStatus { connection_count: 0, avg_response_time: 0 }
    }
}

/// The status of a worker as an abstract entry: its address and its status.
pub type StatusEntry = (Seq<char>, WorkerStatus);

/// No address occurs twice among the entries.
pub open spec fn distinct_keys(e: Seq<StatusEntry>) -> bool {
    forall|i: int, j: int| 0 <= i < e.len() && 0 <= j < e.len() && i != j ==> e[i].0 != e[j].0
}

/// Whether some entry has address `key`.
pub open spec fn has_key(e: Seq<StatusEntry>, key: Seq<char>) -> bool {
    exists|i: int| 0 <= i < e.len() && #[trigger] e[i].0 == key
}

/// The position of the entry with address `key` (meaningful when there is one).
pub open spec fn key_index(e: Seq<StatusEntry>, key: Seq<char>) -> int {
    choose|i: int| 0 <= i < e.len() && #[trigger] e[i].0 == key
}

/// The status recorded for `key`, if any.
pub open spec fn lookup(e: Seq<StatusEntry>, key: Seq<char>) -> Option<WorkerStatus> {
    if has_key(e, key) {
        Some(e[key_index(e, key)].1)
    } else {
        None
    }
}

/// The entries after recording `status` for `key`: an existing entry is
/// overwritten in place, a new address is appended.
pub open spec fn insert_entry(e: Seq<StatusEntry>, key: Seq<char>, status: WorkerStatus) -> Seq<
    StatusEntry,
> {
    if has_key(e, key) {
        e.update(key_index(e, key), (key, status))
    } else {
        e.push((key, status))
    }
}

/// Entry `i` has the lowest average response time, and every earlier entry a
/// strictly higher one.
pub open spec fn is_first_min(e: Seq<StatusEntry>, i: int) -> bool {
    &&& 0 <= i < e.len()
    &&& forall|j: int| 0 <= j < e.len() ==> e[i].1.avg_response_time <= #[trigger] e[j].1.avg_response_time
    &&& forall|j: int| 0 <= j < i ==> e[i].1.avg_response_time < #[trigger] e[j].1.avg_response_time
}

/// `key` has a recorded status, and no address has a lower recorded average
/// response time.
pub open spec fn least_recorded(e: Seq<StatusEntry>, key: Seq<char>) -> bool {
    &&& lookup(e, key) is Some
    &&& forall|k: Seq<char>|
        #[trigger] has_key(e, k) ==> lookup(e, key).unwrap().avg_response_time <= lookup(
            e,
            k,
        ).unwrap().avg_response_time
}

/// In a table with distinct keys, the first minimum's address has the least
/// recorded average of all addresses.
pub proof fn lemma_first_min_least(e: Seq<StatusEntry>, i: int)
    requires
        distinct_keys(e),
        is_first_min(e, i),
    ensures
        least_recorded(e, e[i].0),
{
    lemma_key_index_unique(e, e[i].0, i);
    assert forall|k: Seq<char>| #[trigger] has_key(e, k) implies lookup(
        e,
        e[i].0,
    ).unwrap().avg_response_time <= lookup(e, k).unwrap().avg_response_time by {
        let x = key_index(e, k);
        assert(e[i].1.avg_response_time <= e[x].1.avg_response_time);
    }
}

/// In a table with distinct keys, an index whose address is `key` is the
/// index of `key`.
pub proof fn lemma_key_index_unique(e: Seq<StatusEntry>, key: Seq<char>, i: int)
    requires
        distinct_keys(e),
        0 <= i < e.len(),
        e[i].0 == key,
    ensures
        has_key(e, key),
        key_index(e, key) == i,
{
    assert(has_key(e, key));
}

/// At most one index is the first minimum.
pub proof fn lemma_first_min_unique(e: Seq<StatusEntry>, i: int, j: int)
    requires
        is_first_min(e, i),
        is_first_min(e, j),
    ensures
        i == j,
{
    if i < j {
        assert(e[j].1.avg_response_time < e[i].1.avg_response_time);
    } else if j < i {
        assert(e[i].1.avg_response_time < e[j].1.avg_response_time);
    }
}

/// Recording a status for `key` adds `key` to the addresses that have a
/// status, and no other address.
pub proof fn lemma_insert_entry_keys(
    e: Seq<StatusEntry>,
    key: Seq<char>,
    status: WorkerStatus,
    k: Seq<char>,
)
    ensures
        has_key(insert_entry(e, key, status), k) <==> has_key(e, k) || k == key,
{
    let e2 = insert_entry(e, key, status);
    if has_key(e, key) {
        let w = key_index(e, key);
        assert(e2 == e.update(w, (key, status)));
        if has_key(e, k) {
            let x = choose|x: int| 0 <= x < e.len() && #[trigger] e[x].0 == k;
            if x == w {
                assert(e2[w].0 == key);
                assert(e[w].0 == key);
            } else {
                assert(e2[x].0 == k);
            }
        }
        if k == key {
            assert(e2[w].0 == key);
        }
        if has_key(e2, k) {
            let x = choose|x: int| 0 <= x < e2.len() && #[trigger] e2[x].0 == k;
            if x != w {
                assert(e[x].0 == k);
            }
        }
    } else {
        assert(e2 == e.push((key, status)));
        if has_key(e, k) {
            let x = choose|x: int| 0 <= x < e.len() && #[trigger] e[x].0 == k;
            assert(e2[x].0 == k);
        }
        if k == key {
            assert(e2[e.len() as int].0 == key);
        }
        if has_key(e2, k) {
            let x = choose|x: int| 0 <= x < e2.len() && #[trigger] e2[x].0 == k;
            if x < e.len() {
                assert(e[x].0 == k);
            }
        }
    }
}

/// Table of worker statuses; each address occurs once.
pub struct WorkerStatusTable {
    keys: Vec<String>,
    statuses: Vec<WorkerStatus>,
}

impl WorkerStatusTable {
    /// The entries in table order.
    pub closed spec fn entries(&self) -> Seq<StatusEntry> {
        Seq::new(self.keys@.len(), |i: int| (self.keys@[i]@, self.statuses@[i]))
    }

    /// The table's invariant: one status per address, each address once.
    pub closed spec fn wf(&self) -> bool {
        &&& self.keys@.len() == self.statuses@.len()
        &&& distinct_keys(self.entries())
    }

    /// A well-formed table has distinct addresses.
    pub proof fn lemma_wf_distinct(self)
        requires
            self.wf(),
        ensures
            distinct_keys(self.entries()),
    {
    }

    /// An empty table.
    pub fn new() -> (r: Self)
        ensures
            r.wf(),
            r.entries() == Seq::<StatusEntry>::empty(),
    {
        let r = WorkerStatusTable { keys: Vec::new(), statuses: Vec::new() };
        assert(r.entries() =~= Seq::<StatusEntry>::empty());
        r
    }

    /// Number of entries.
    pub fn len(&self) -> (r: usize)
        requires
            self.wf(),
        ensures
            r == self.entries().len(),
            distinct_keys(self.entries()),
    {
        self.keys.len()
    }

    /// The position of `key`, if it is in the table.
    fn find(&self, key: &String) -> (r: Option<usize>)
        requires
            self.wf(),
        ensures
            r matches Some(i) ==> i < self.entries().len() && self.entries()[i as int].0 == key@,
            r is None ==> !has_key(self.entries(), key@),
    {
        let n = self.keys.len();
        let mut i: usize = 0;
        while i < n
            invariant
                n == self.keys@.len(),
                n == self.entries().len(),
                i <= n,
                forall|j: int| 0 <= j < i ==> self.entries()[j].0 != key@,
            decreases n - i,
        {
            if self.keys[i] == *key {
                return Some(i);
            }
            i = i + 1;
        }
        proof {
            if has_key(self.entries(), key@) {
                let w = key_index(self.entries(), key@);
                assert(self.entries()[w].0 == key@);
            }
        }
        None
    }

    /// The status recorded for `key`.
    pub fn get(&self, key: &String) -> (r: Option<WorkerStatus>)
        requires
            self.wf(),
        ensures
            r == lookup(self.entries(), key@),
    {
        match self.find(key) {
            Some(i) => {
                proof {
                    lemma_key_index_unique(self.entries(), key@, i as int);
                }
                Some(self.statuses[i])
            },
            None => None,
        }
    }

    /// Records `status` for `key`, replacing any earlier status of that key.
    pub fn insert(&mut self, key: String, status: WorkerStatus)
        requires
            old(self).wf(),
        ensures
            final(self).wf(),
            final(self).entries() == insert_entry(old(self).entries(), key@, status),
    {
        let ghost old_entries = self.entries();
        match self.find(&key) {
            Some(i) => {
                proof {
                    lemma_key_index_unique(old_entries, key@, i as int);
                }
                self.statuses.set(i, status);
                proof {
                    assert(self.entries() =~= old_entries.update(i as int, (key@, status)));
                }
            },
            None => {
                let ghost kv = key@;
                self.keys.push(key);
                self.statuses.push(status);
                proof {
                    assert(self.entries() =~= old_entries.push((kv, status)));
                    assert forall|a: int, b: int|
                        0 <= a < self.entries().len() && 0 <= b < self.entries().len() && a
                            != b implies self.entries()[a].0 != self.entries()[b].0 by {
                        if a < old_entries.len() && b < old_entries.len() {
                        } else if a < old_entries.len() {
                            assert(old_entries[a].0 == self.entries()[a].0);
                            if old_entries[a].0 == kv {
                                assert(has_key(old_entries, kv));
                            }
                        } else {
                            assert(old_entries[b].0 == self.entries()[b].0);
                            if old_entries[b].0 == kv {
                                assert(has_key(old_entries, kv));
                            }
                        }
                    }
                }
            },
        }
    }

    /// The address whose status has the lowest average response time, the
    /// first such one in table order; `None` for an empty table.
    pub fn least_avg_key(&self) -> (r: Option<String>)
        requires
            self.wf(),
        ensures
            r is None <==> self.entries().len() == 0,
            r matches Some(k) ==> exists|i: int|
                is_first_min(self.entries(), i) && #[trigger] self.entries()[i].0 == k@,
    {
        let n = self.keys.len();
        if n == 0 {
            return None;
        }
        let mut best: usize = 0;
        let mut i: usize = 1;
        while i < n
            invariant
                n == self.keys@.len(),
                n == self.statuses@.len(),
                n == self.entries().len(),
                1 <= i <= n,
                best < i,
                forall|j: int|
                    0 <= j < i ==> self.statuses@[best as int].avg_response_time
                        <= #[trigger] self.statuses@[j].avg_response_time,
                forall|j: int|
                    0 <= j < best ==> self.statuses@[best as int].avg_response_time
                        < #[trigger] self.statuses@[j].avg_response_time,
            decreases n - i,
        {
            if self.statuses[i].avg_response_time < self.statuses[best].avg_response_time {
                best = i;
            }
            i = i + 1;
        }
        let k = self.keys[best].clone();
        proof {
            let e = self.entries();
            assert forall|j: int| 0 <= j < e.len() implies e[best as int].1.avg_response_time
                <= #[trigger] e[j].1.avg_response_time by {
                assert(self.statuses@[j].avg_response_time == e[j].1.avg_response_time);
            }
            assert forall|j: int| 0 <= j < best implies e[best as int].1.avg_response_time
                < #[trigger] e[j].1.avg_response_time by {
                assert(self.statuses@[j].avg_response_time == e[j].1.avg_response_time);
            }
            assert(is_first_min(e, best as int));
            assert(e[best as int].0 == k@);
        }
        Some(k)
    }
}

} // verus!
