use crate::events::doc_sync_events::{
    empty_doc_map, seconds_of, unix_nanos, unix_seconds, whole_seconds, DocumentationMap,
    QualityMetrics,
};
use crate::str_map::StrMap;
use crate::text::{ends_with, is_suffix, join2, join3, trim_end_matches, without_trailing};
use vstd::prelude::*;

verus! {

/// Why a state operation failed. Each variant carries the detail as text.
#[derive(Debug, Clone)]
pub enum StateError {
    FileIo(String),
    JsonSerialization(String),
    LockError(String),
    NotFound(String),
    LockTimeout(String),
}

impl StateError {
    /// The error as one line of text: what kind it is, then the detail.
    pub open spec fn text(&self) -> Seq<char> {
        match self {
            StateError::FileIo(d) => "File IO error: "@ + d@,
            StateError::JsonSerialization(d) => "JSON serialization error: "@ + d@,
            StateError::LockError(d) => "State lock error: "@ + d@,
            StateError::NotFound(d) => "State not found: "@ + d@,
            StateError::LockTimeout(d) => "Lock timeout: "@ + d@,
        }
    }

    /// The error as one line of text.
    pub fn message(&self) -> (line: String)
        ensures
            line@ == self.text(),
    {
        match self {
            StateError::FileIo(d) => join2("File IO error: ", d.as_str()),
            StateError::JsonSerialization(d) => join2("JSON serialization error: ", d.as_str()),
            StateError::LockError(d) => join2("State lock error: ", d.as_str()),
            StateError::NotFound(d) => join2("State not found: ", d.as_str()),
            StateError::LockTimeout(d) => join2("Lock timeout: ", d.as_str()),
        }
    }
}

/// A unit of work of the synchronization. `status` is "pending",
/// "in_progress", "completed" or "failed".
#[derive(Debug, Clone)]
pub struct SyncTask {
    pub task_id: String,
    pub task_type: String,
    pub status: String,
    pub assigned_to: String,
    pub parameters: StrMap<String>,
    pub created_at: u64,
    pub updated_at: u64,
}

/// A failure noted during the synchronization.
#[derive(Debug, Clone)]
pub struct SyncError {
    pub error_type: String,
    pub description: String,
    pub related_task_id: Option<String>,
    pub related_paths: Vec<String>,
    pub timestamp: u64,
    pub metadata: StrMap<String>,
}

/// What the workflow looked like when one pass of the refinement loop ended.
#[derive(Debug, Clone)]
pub struct IterationState {
    pub iteration_number: u32,
    pub timestamp: u64,
    pub quality_scores: Option<QualityMetrics>,
    pub verification_results: StrMap<bool>,
    pub tasks_completed: usize,
    pub tasks_pending: usize,
    pub issues_found: usize,
    pub issues_resolved: usize,
}

/// Everything that is kept for one workflow.
#[derive(Debug, Clone)]
pub struct DocSyncState {
    pub master_doc_map: DocumentationMap,
    pub pending_tasks: Vec<SyncTask>,
    pub completed_tasks: Vec<SyncTask>,
    pub error_log: Vec<SyncError>,
    pub quality_scores: Option<QualityMetrics>,
    pub metadata: StrMap<String>,
    pub last_updated: u64,
    pub current_iteration: u32,
    pub max_iterations: u32,
    pub iteration_history: Vec<IterationState>,
    pub requirements_satisfied: StrMap<bool>,
}

impl DocSyncState {
    /// `self` is the state of a workflow that has not begun, stamped `now`:
    /// nothing recorded, first iteration, at most five iterations.
    pub open spec fn is_fresh(&self, now: u64) -> bool {
        &&& self.master_doc_map@ == empty_doc_map()
        &&& self.pending_tasks@.len() == 0
        &&& self.completed_tasks@.len() == 0
        &&& self.error_log@.len() == 0
        &&& self.quality_scores.is_none()
        &&& self.metadata@ == Map::<Seq<char>, String>::empty()
        &&& self.last_updated == now
        &&& self.current_iteration == 1
        &&& self.max_iterations == 5
        &&& self.iteration_history@.len() == 0
        &&& self.requirements_satisfied@ == Map::<Seq<char>, bool>::empty()
    }

    /// The state of a workflow that has not begun, stamped `now`.
    pub fn fresh(now: u64) -> (state: Self)
        ensures
            state.is_fresh(now),
    {
        DocSyncState {
            master_doc_map: DocumentationMap::default(),
            pending_tasks: Vec::new(),
            completed_tasks: Vec::new(),
            error_log: Vec::new(),
            quality_scores: None,
            metadata: StrMap::new(),
            last_updated: now,
            current_iteration: 1,
            max_iterations: 5,
            iteration_history: Vec::new(),
            requirements_satisfied: StrMap::new(),
        }
    }
}

impl Default for DocSyncState {
    /// The state of a workflow that has not begun, stamped with the current
    /// time.
    fn default() -> (state: Self)
        ensures
            exists|now: u64| state.is_fresh(now),
    {
        let now = unix_seconds();
        DocSyncState::fresh(now)
    }
}

/// Is the lock on `id` taken and not yet expired at time `now`? Times are
/// nanoseconds since the start of 1970. A lock expires once it is `timeout`
/// seconds old.
pub open spec fn held(locks: Map<Seq<char>, u128>, timeout: u64, id: Seq<char>, now: u128) -> bool {
    locks.contains_key(id) && now - locks[id] < timeout * 1_000_000_000
}

/// The lock table after `id` was locked at time `now`.
pub open spec fn after_lock(locks: Map<Seq<char>, u128>, id: Seq<char>, now: u128) -> Map<
    Seq<char>,
    u128,
> {
    locks.insert(id, now)
}

/// The lock table after every lock that has expired at `now` was dropped.
pub open spec fn without_expired(locks: Map<Seq<char>, u128>, timeout: u64, now: u128) -> Map<
    Seq<char>,
    u128,
> {
    Map::new(|id: Seq<char>| held(locks, timeout, id, now), |id: Seq<char>| locks[id])
}

/// The workflows whose lock has expired at `now`.
pub open spec fn expired_locks(locks: Map<Seq<char>, u128>, timeout: u64, now: u128) -> Set<
    Seq<char>,
> {
    Set::new(|id: Seq<char>| locks.contains_key(id) && !held(locks, timeout, id, now))
}

/// The detail of the error that refuses a lock already taken.
pub open spec fn already_locked_text(id: Seq<char>) -> Seq<char> {
    "State is already locked for correlation ID: "@ + id
}

/// The name of the file that keeps the state of workflow `id` below `dir`.
pub open spec fn state_file(dir: Seq<char>, id: Seq<char>) -> Seq<char> {
    dir + "/"@ + id + ".json"@
}

/// Mutual exclusion: a lock taken at `first` refuses a second taker while
/// it is younger than the timeout, and gives way once it is that old.
pub proof fn law_mutual_exclusion(
    locks: Map<Seq<char>, u128>,
    timeout: u64,
    id: Seq<char>,
    first: u128,
    second: u128,
)
    requires
        first <= second,
    ensures
        held(after_lock(locks, id, first), timeout, id, second) <==> second - first < timeout
            * 1_000_000_000,
{
}

/// A lock on one workflow neither takes nor frees the lock on another.
pub proof fn law_locks_are_per_workflow(
    locks: Map<Seq<char>, u128>,
    timeout: u64,
    id: Seq<char>,
    other: Seq<char>,
    at: u128,
    now: u128,
)
    requires
        id != other,
    ensures
        held(after_lock(locks, id, at), timeout, other, now) == held(locks, timeout, other, now),
        held(locks.remove(id), timeout, other, now) == held(locks, timeout, other, now),
{
}

/// Release: once `id` is taken out of the table, its lock is free at every
/// time, whatever the timeout.
pub proof fn law_released_lock_is_free(
    locks: Map<Seq<char>, u128>,
    timeout: u64,
    id: Seq<char>,
    now: u128,
)
    ensures
        !held(locks.remove(id), timeout, id, now),
{
}

/// A cleanup leaves no expired lock behind: right after one, at the same
/// time, no lock has expired, so a second cleanup drops nothing and leaves
/// the table as it is.
pub proof fn law_cleanup_leaves_none_expired(locks: Map<Seq<char>, u128>, timeout: u64, now: u128)
    ensures
        expired_locks(without_expired(locks, timeout, now), timeout, now) == Set::<
            Seq<char>,
        >::empty(),
        expired_locks(without_expired(locks, timeout, now), timeout, now).len() == 0,
        without_expired(without_expired(locks, timeout, now), timeout, now) == without_expired(
            locks,
            timeout,
            now,
        ),
{
    let kept = without_expired(locks, timeout, now);
    assert(expired_locks(kept, timeout, now) =~= Set::<Seq<char>>::empty());
    assert(without_expired(kept, timeout, now) =~= kept);
}

/// The locks that a cleanup drops and those that it keeps are together the
/// locks that were there: none is lost and none is counted twice.
pub proof fn law_cleanup_splits_the_table(locks: Map<Seq<char>, u128>, timeout: u64, now: u128)
    requires
        locks.dom().finite(),
    ensures
        expired_locks(locks, timeout, now).finite(),
        without_expired(locks, timeout, now).dom().finite(),
        expired_locks(locks, timeout, now).len() + without_expired(locks, timeout, now).dom().len()
            == locks.dom().len(),
{
    let gone = expired_locks(locks, timeout, now);
    let kept = without_expired(locks, timeout, now).dom();
    assert(gone.subset_of(locks.dom()));
    assert(kept.subset_of(locks.dom()));
    vstd::set_lib::lemma_len_subset(gone, locks.dom());
    vstd::set_lib::lemma_len_subset(kept, locks.dom());
    assert(gone.disjoint(kept));
    assert(gone.union(kept) =~= locks.dom());
    vstd::set_lib::lemma_set_disjoint_lens(gone, kept);
}

/// Keeps, per workflow, the advisory lock that guards its state, and knows
/// where each state is kept.
#[derive(Debug)]
pub struct StateManager {
    state_dir: String,
    locks: StrMap<u128>,
    lock_timeout: u64,
}

impl StateManager {
    /// The lock table: for each locked workflow, when its lock was taken,
    /// in nanoseconds since the start of 1970.
    pub closed spec fn locks(&self) -> Map<Seq<char>, u128> {
        self.locks@
    }

    /// The age, in seconds, at which a lock expires.
    pub closed spec fn timeout(&self) -> u64 {
        self.lock_timeout
    }

    /// The directory below which the states are kept.
    pub closed spec fn dir(&self) -> Seq<char> {
        self.state_dir@
    }

    /// Is the lock on `id` taken and not yet expired at `now`?
    pub open spec fn is_held(&self, id: Seq<char>, now: u128) -> bool {
        held(self.locks(), self.timeout(), id, now)
    }

    /// A manager for states below `state_dir`, with no lock taken and a
    /// timeout of 60 seconds.
    pub fn new(state_dir: &str) -> (made: Result<Self, StateError>)
        ensures
            made matches Ok(m) && m.dir() == state_dir@ && m.timeout() == 60 && m.locks()
                == Map::<Seq<char>, u128>::empty(),
    {
        Ok(
            StateManager {
                state_dir: String::from_str(state_dir),
                locks: StrMap::new(),
                lock_timeout: 60,
            },
        )
    }

    pub fn set_lock_timeout(&mut self, seconds: u64)
        ensures
            final(self).timeout() == seconds,
            final(self).locks() == old(self).locks(),
            final(self).dir() == old(self).dir(),
    {
        self.lock_timeout = seconds;
    }

    pub fn lock_timeout(&self) -> (seconds: u64)
        ensures
            seconds == self.timeout(),
    {
        self.lock_timeout
    }

    /// The directory below which the states are kept.
    pub fn state_dir(&self) -> (dir: &String)
        ensures
            dir@ == self.dir(),
    {
        &self.state_dir
    }

    /// Is the lock on `correlation_id` taken and not yet expired at `now`?
    pub fn is_locked_at(&self, correlation_id: &str, now: u128) -> (taken: bool)
        ensures
            taken == self.is_held(correlation_id@, now),
    {
        match self.locks.get(correlation_id) {
            Some(since) => now < *since || now - *since < (self.lock_timeout as u128)
                * 1_000_000_000,
            None => false,
        }
    }

    /// Takes the lock on `correlation_id` at time `now`. A lock that is
    /// taken and has not expired refuses; an expired one is replaced.
    pub fn lock_state_at(&mut self, correlation_id: &str, now: u128) -> (taken: Result<
        (),
        StateError,
    >)
        ensures
            final(self).timeout() == old(self).timeout(),
            final(self).dir() == old(self).dir(),
            old(self).is_held(correlation_id@, now) ==> {
                &&& taken matches Err(StateError::LockError(detail))
                &&& detail@ == already_locked_text(correlation_id@)
                &&& final(self).locks() == old(self).locks()
            },
            !old(self).is_held(correlation_id@, now) ==> {
                &&& taken is Ok
                &&& final(self).locks() == after_lock(old(self).locks(), correlation_id@, now)
            },
    {
        if self.is_locked_at(correlation_id, now) {
            return Err(
                StateError::LockError(
                    join2("State is already locked for correlation ID: ", correlation_id),
                ),
            );
        }
        self.locks.insert(String::from_str(correlation_id), now);
        Ok(())
    }

    /// Takes the lock on `correlation_id` at the current time.
    pub fn lock_state(&mut self, correlation_id: &str) -> (taken: Result<(), StateError>)
        ensures
            final(self).timeout() == old(self).timeout(),
            final(self).dir() == old(self).dir(),
            match taken {
                Ok(_) => exists|now: u128|
                    !old(self).is_held(correlation_id@, now) && final(self).locks() == after_lock(
                        old(self).locks(),
                        correlation_id@,
                        now,
                    ),
                Err(e) => {
                    &&& e matches StateError::LockError(detail)
                    &&& detail@ == already_locked_text(correlation_id@)
                    &&& final(self).locks() == old(self).locks()
                    &&& old(self).locks().contains_key(correlation_id@)
                },
            },
    {
        let now = unix_nanos();
        self.lock_state_at(correlation_id, now)
    }

    /// Frees the lock on `correlation_id`. Freeing a lock that is not taken
    /// changes nothing.
    pub fn unlock_state(&mut self, correlation_id: &str) -> (freed: Result<(), StateError>)
        ensures
            freed is Ok,
            final(self).locks() == old(self).locks().remove(correlation_id@),
            final(self).timeout() == old(self).timeout(),
            final(self).dir() == old(self).dir(),
    {
        let _ = self.locks.remove(correlation_id);
        Ok(())
    }

    /// Drops every lock that has expired at `now` and says how many went.
    pub fn cleanup_expired_locks_at(&mut self, now: u128) -> (dropped: Result<usize, StateError>)
        ensures
            final(self).timeout() == old(self).timeout(),
            final(self).dir() == old(self).dir(),
            final(self).locks() == without_expired(old(self).locks(), old(self).timeout(), now),
            expired_locks(old(self).locks(), old(self).timeout(), now).finite(),
            old(self).locks().dom().finite(),
            final(self).locks().dom().finite(),
            dropped matches Ok(count) && count == expired_locks(
                old(self).locks(),
                old(self).timeout(),
                now,
            ).len() && count + final(self).locks().dom().len() == old(self).locks().dom().len(),
    {
        let n: usize = self.locks.len();
        let mut kept: StrMap<u128> = StrMap::new();
        let mut count: usize = 0;
        let mut i: usize = 0;
        let ghost before = self.locks@;
        let ghost order = self.locks.keys();
        let ghost mut gone: Seq<Seq<char>> = Seq::empty();
        let timeout = self.lock_timeout;
        while i < n
            invariant
                before == self.locks@,
                order == self.locks.keys(),
                timeout == self.lock_timeout,
                n == order.len(),
                order.no_duplicates(),
                forall|k: Seq<char>| before.contains_key(k) <==> order.contains(k),
                i <= n,
                count <= i,
                count == gone.len(),
                gone.no_duplicates(),
                forall|k: Seq<char>|
                    gone.contains(k) <==> (exists|j: int|
                        0 <= j < i && order[j] == k && !held(before, timeout, k, now)),
                forall|k: Seq<char>|
                    kept@.contains_key(k) <==> (exists|j: int|
                        0 <= j < i && order[j] == k && held(before, timeout, k, now)),
                forall|k: Seq<char>| kept@.contains_key(k) ==> kept@[k] == before[k],
            decreases n - i,
        {
            let key = self.locks.key_at(i);
            let since = *self.locks.value_at(i);
            if now < since || now - since < (timeout as u128) * 1_000_000_000 {
                kept.insert(key.clone(), since);
                assert forall|k: Seq<char>|
                    kept@.contains_key(k) <==> (exists|j: int|
                        0 <= j < i + 1 && order[j] == k && held(before, timeout, k, now)) by {
                    if k == order[i as int] {
                        assert(0 <= i < i + 1 && order[i as int] == k);
                    }
                }
                assert forall|k: Seq<char>|
                    gone.contains(k) <==> (exists|j: int|
                        0 <= j < i + 1 && order[j] == k && !held(before, timeout, k, now)) by {}
            } else {
                count += 1;
                proof {
                    let id = order[i as int];
                    let earlier = gone;
                    if earlier.contains(id) {
                        let j = choose|j: int|
                            0 <= j < i && order[j] == id && !held(before, timeout, id, now);
                        assert(order[j] == order[i as int]);
                    }
                    gone = earlier.push(id);
                    assert forall|a: int, b: int|
                        0 <= a < gone.len() && 0 <= b < gone.len() && a != b implies gone[a]
                        != gone[b] by {
                        if a < earlier.len() && b < earlier.len() {
                            assert(earlier[a] != earlier[b]);
                        } else if a < earlier.len() {
                            assert(earlier.contains(earlier[a]));
                        } else {
                            assert(earlier.contains(earlier[b]));
                        }
                    }
                    assert forall|k: Seq<char>|
                        gone.contains(k) <==> (exists|j: int|
                            0 <= j < i + 1 && order[j] == k && !held(before, timeout, k, now)) by {
                        if gone.contains(k) {
                            let at = choose|at: int| 0 <= at < gone.len() && gone[at] == k;
                            if at < earlier.len() {
                                assert(earlier.contains(k));
                            } else {
                                assert(0 <= i < i + 1 && order[i as int] == k);
                            }
                        }
                        if exists|j: int|
                            0 <= j < i + 1 && order[j] == k && !held(before, timeout, k, now) {
                            let j = choose|j: int|
                                0 <= j < i + 1 && order[j] == k && !held(before, timeout, k, now);
                            if j < i {
                                assert(earlier.contains(k));
                                let at = choose|at: int|
                                    0 <= at < earlier.len() && earlier[at] == k;
                                assert(gone[at] == k);
                            } else {
                                assert(gone[earlier.len() as int] == k);
                            }
                        }
                    }
                }
                assert forall|k: Seq<char>|
                    kept@.contains_key(k) <==> (exists|j: int|
                        0 <= j < i + 1 && order[j] == k && held(before, timeout, k, now)) by {}
            }
            i += 1;
        }
        proof {
            assert forall|k: Seq<char>|
                kept@.contains_key(k) <==> held(before, timeout, k, now) by {
                if held(before, timeout, k, now) {
                    assert(order.contains(k));
                    let j = choose|j: int| 0 <= j < order.len() && order[j] == k;
                    assert(0 <= j < n && order[j] == k);
                }
            }
            assert(kept@ =~= without_expired(before, timeout, now));
            assert forall|k: Seq<char>|
                gone.to_set().contains(k) <==> expired_locks(before, timeout, now).contains(
                    k,
                ) by {
                if gone.contains(k) {
                    let j = choose|j: int|
                        0 <= j < n && order[j] == k && !held(before, timeout, k, now);
                    assert(order[j] == k);
                    assert(order.contains(k));
                }
                if expired_locks(before, timeout, now).contains(k) {
                    assert(order.contains(k));
                    let j = choose|j: int| 0 <= j < order.len() && order[j] == k;
                    assert(0 <= j < n && order[j] == k && !held(before, timeout, k, now));
                }
            }
            assert(gone.to_set() =~= expired_locks(before, timeout, now));
            gone.unique_seq_to_set();
            vstd::seq_lib::seq_to_set_is_finite(gone);
            assert(order.to_set() =~= before.dom());
            vstd::seq_lib::seq_to_set_is_finite(order);
            law_cleanup_splits_the_table(before, timeout, now);
        }
        self.locks = kept;
        Ok(count)
    }

    /// Drops every lock that has expired at the current time and says how
    /// many went.
    pub fn cleanup_expired_locks(&mut self) -> (dropped: Result<usize, StateError>)
        ensures
            final(self).timeout() == old(self).timeout(),
            final(self).dir() == old(self).dir(),
            dropped is Ok,
            exists|now: u128|
                final(self).locks() == without_expired(old(self).locks(), old(self).timeout(), now)
                    && dropped.unwrap() == #[trigger] expired_locks(
                    old(self).locks(),
                    old(self).timeout(),
                    now,
                ).len(),
    {
        let now = unix_nanos();
        self.cleanup_expired_locks_at(now)
    }

    /// The name of the file that keeps the state of `correlation_id`.
    pub fn get_state_file_path(&self, correlation_id: &str) -> (path: String)
        ensures
            path@ == state_file(self.dir(), correlation_id@),
    {
        let mut path = join3(self.state_dir.as_str(), "/", correlation_id);
        path.append(".json");
        path
    }

    /// The state that an update works on, given what reading the stored
    /// state gave: the stored state; a fresh one where none is stored; and
    /// on any other failure the lock is freed and the failure handed on.
    pub fn resolve_read(
        &mut self,
        correlation_id: &str,
        read: Result<DocSyncState, StateError>,
        now: u64,
    ) -> (start: Result<DocSyncState, StateError>)
        ensures
            final(self).timeout() == old(self).timeout(),
            final(self).dir() == old(self).dir(),
            match read {
                Ok(stored) => start == Ok::<DocSyncState, StateError>(stored) && final(self).locks() == old(self).locks(),
                Err(StateError::NotFound(_)) => start matches Ok(s) && s.is_fresh(now) && final(self).locks() == old(self).locks(),
                Err(e) => start == Err::<DocSyncState, StateError>(e) && final(self).locks() == old(self).locks().remove(correlation_id@),
            },
    {
        match read {
            Ok(stored) => Ok(stored),
            Err(StateError::NotFound(_)) => Ok(DocSyncState::fresh(now)),
            Err(e) => {
                let _ = self.unlock_state(correlation_id);
                Err(e)
            },
        }
    }

    /// Ends an update: frees the lock, whatever writing gave, and hands on
    /// what writing gave.
    pub fn finish_update(&mut self, correlation_id: &str, written: Result<(), StateError>) -> (end:
        Result<(), StateError>)
        ensures
            end == written,
            final(self).locks() == old(self).locks().remove(correlation_id@),
            final(self).timeout() == old(self).timeout(),
            final(self).dir() == old(self).dir(),
    {
        let _ = self.unlock_state(correlation_id);
        written
    }

    /// Updates the state of `correlation_id` under its lock: takes the lock
    /// at `now`, reads the stored state with `read` (a fresh state stands in
    /// where none is stored), applies `update_fn`, stamps the result with
    /// the whole seconds of `now`, stores it with `write`, and frees the
    /// lock. Whatever `read` and `write` give, the lock is free afterwards
    /// unless another holder had it.
    ///
    /// `read` need only be callable where the lock is free, `update_fn`
    /// only on a state that `read` may give or on a fresh one, and `write`
    /// only on what `update_fn` makes of such a state, stamped. So nothing
    /// is read or written where another holder has the lock, and nothing
    /// is written where reading fails.
    pub fn update_state_at<R, F, W>(
        &mut self,
        correlation_id: &str,
        now: u128,
        read: R,
        update_fn: F,
        write: W,
    ) -> (end: Result<(), StateError>) where
        R: FnOnce() -> Result<DocSyncState, StateError>,
        F: FnOnce(DocSyncState) -> DocSyncState,
        W: FnOnce(DocSyncState) -> Result<(), StateError>,

        requires
            !old(self).is_held(correlation_id@, now) ==> call_requires(read, ()),
            forall|start: DocSyncState|
                !old(self).is_held(correlation_id@, now) && #[trigger] may_start_from(
                    read,
                    seconds_of(now),
                    start,
                ) ==> call_requires(update_fn, (start,)),
            forall|start: DocSyncState, next: DocSyncState|
                #![trigger
                    may_start_from(read, seconds_of(now), start),
                    call_ensures(update_fn, (start,), next)]
                !old(self).is_held(correlation_id@, now) && may_start_from(
                    read,
                    seconds_of(now),
                    start,
                ) && call_ensures(update_fn, (start,), next) ==> call_requires(
                    write,
                    (DocSyncState { last_updated: seconds_of(now), ..next },),
                ),
        ensures
            final(self).timeout() == old(self).timeout(),
            final(self).dir() == old(self).dir(),
            old(self).is_held(correlation_id@, now) ==> {
                &&& end matches Err(StateError::LockError(detail))
                &&& detail@ == already_locked_text(correlation_id@)
                &&& final(self).locks() == old(self).locks()
            },
            !old(self).is_held(correlation_id@, now) ==> {
                &&& final(self).locks() == old(self).locks().remove(correlation_id@)
                &&& forall|later: u128| !final(self).is_held(correlation_id@, later)
                &&& update_outcome(read, update_fn, write, seconds_of(now), end)
            },
    {
        match self.lock_state_at(correlation_id, now) {
            Err(e) => {
                return Err(e);
            },
            Ok(_) => {},
        }
        let loaded = read();
        let stamp = whole_seconds(now);
        let start = match self.resolve_read(correlation_id, loaded, stamp) {
            Ok(s) => s,
            Err(e) => {
                assert(self.locks() =~= old(self).locks().remove(correlation_id@));
                return Err(e);
            },
        };
        assert(may_start_from(read, stamp, start));
        let ghost begun = start;
        let mut next = update_fn(start);
        let ghost made = next;
        next.last_updated = stamp;
        assert(next == (DocSyncState { last_updated: stamp, ..made }));
        assert(call_ensures(update_fn, (begun,), made));
        let written = write(next);
        let end = self.finish_update(correlation_id, written);
        assert(self.locks() =~= old(self).locks().remove(correlation_id@));
        end
    }

    /// As `update_state_at`, at the current time.
    pub fn update_state<R, F, W>(
        &mut self,
        correlation_id: &str,
        read: R,
        update_fn: F,
        write: W,
    ) -> (end: Result<(), StateError>) where
        R: FnOnce() -> Result<DocSyncState, StateError>,
        F: FnOnce(DocSyncState) -> DocSyncState,
        W: FnOnce(DocSyncState) -> Result<(), StateError>,

        requires
            call_requires(read, ()),
            forall|start: DocSyncState, now: u64|
                #[trigger] may_start_from(read, now, start) ==> call_requires(update_fn, (start,)),
            forall|start: DocSyncState, next: DocSyncState, now: u64|
                #![trigger
                    may_start_from(read, now, start),
                    call_ensures(update_fn, (start,), next)]
                may_start_from(read, now, start) && call_ensures(update_fn, (start,), next)
                    ==> call_requires(write, (DocSyncState { last_updated: now, ..next },)),
        ensures
            final(self).timeout() == old(self).timeout(),
            final(self).dir() == old(self).dir(),
            (end matches Err(StateError::LockError(detail)) && detail@ == already_locked_text(
                correlation_id@,
            ) && final(self).locks() == old(self).locks() && old(self).locks().contains_key(
                correlation_id@,
            )) || (final(self).locks() == old(self).locks().remove(correlation_id@) && exists|
                now: u64,
            | update_outcome(read, update_fn, write, now, end)),
    {
        let now = unix_nanos();
        self.update_state_at(correlation_id, now, read, update_fn, write)
    }
}

/// May an update that got its lock in the second `now` work on `start`?
/// Only on a state that `read` may give, or on a fresh one where `read` may
/// find none.
pub open spec fn may_start_from<R: FnOnce() -> Result<DocSyncState, StateError>>(
    read: R,
    now: u64,
    start: DocSyncState,
) -> bool {
    exists|loaded: Result<DocSyncState, StateError>|
        #[trigger] call_ensures(read, (), loaded) && match loaded {
            Ok(stored) => start == stored,
            Err(StateError::NotFound(_)) => start.is_fresh(now),
            Err(_) => false,
        }
}

/// What an update that got its lock in the second `now` may end with, given
/// what its three steps may give: a failed read other than "not found" ends
/// it with that failure; otherwise the state read (or a fresh one) goes
/// through `update_fn`, is stamped `now`, and the end is what `write` gives
/// for it.
pub open spec fn update_outcome<R, F, W>(
    read: R,
    update_fn: F,
    write: W,
    now: u64,
    end: Result<(), StateError>,
) -> bool where
    R: FnOnce() -> Result<DocSyncState, StateError>,
    F: FnOnce(DocSyncState) -> DocSyncState,
    W: FnOnce(DocSyncState) -> Result<(), StateError>,
 {
    exists|loaded: Result<DocSyncState, StateError>|
        #![trigger call_ensures(read, (), loaded)]
        call_ensures(read, (), loaded) && match loaded {
            Err(StateError::NotFound(_)) => exists|start: DocSyncState, next: DocSyncState|
                #![trigger call_ensures(update_fn, (start,), next)]
                start.is_fresh(now) && call_ensures(update_fn, (start,), next) && call_ensures(
                    write,
                    (DocSyncState { last_updated: now, ..next },),
                    end,
                ),
            Err(e) => end == Err::<(), StateError>(e),
            Ok(start) => exists|next: DocSyncState|
                #![trigger call_ensures(update_fn, (start,), next)]
                call_ensures(update_fn, (start,), next) && call_ensures(
                    write,
                    (DocSyncState { last_updated: now, ..next },),
                    end,
                ),
        }
}

/// The workflow whose state a file of the given name keeps: the name
/// without its ".json" ending, taken off as often as it stands there.
/// A file of another name keeps no state.
pub open spec fn state_id(file_name: Seq<char>) -> Option<Seq<char>> {
    if is_suffix(".json"@, file_name) {
        Some(without_trailing(file_name, ".json"@))
    } else {
        None
    }
}

/// The workflows whose states the files of the given names keep, in the
/// order of the names.
pub open spec fn state_ids(file_names: Seq<Seq<char>>) -> Seq<Seq<char>>
    decreases file_names.len(),
{
    if file_names.len() == 0 {
        Seq::empty()
    } else {
        match state_id(file_names.last()) {
            Some(id) => state_ids(file_names.drop_last()).push(id),
            None => state_ids(file_names.drop_last()),
        }
    }
}

impl StateManager {
    /// The workflow whose state a file of the given name keeps.
    pub fn state_id_of(file_name: &str) -> (id: Option<String>)
        ensures
            match id {
                Some(text) => state_id(file_name@) == Some(text@),
                None => state_id(file_name@).is_none(),
            },
    {
        if ends_with(file_name, ".json") {
            Some(trim_end_matches(file_name, ".json"))
        } else {
            None
        }
    }

    /// The workflows that have a stored state, given the names of the
    /// files in the state directory.
    pub fn list_states(&self, file_names: &Vec<String>) -> (states: Result<Vec<String>, StateError>)
        ensures
            states matches Ok(ids) && ids@.map_values(|s: String| s@) == state_ids(
                file_names@.map_values(|s: String| s@),
            ),
    {
        let mut states: Vec<String> = Vec::new();
        let ghost names = file_names@.map_values(|s: String| s@);
        let n: usize = file_names.len();
        let mut i: usize = 0;
        assert(states@.map_values(|s: String| s@) =~= state_ids(names.subrange(0, 0)));
        while i < n
            invariant
                n == file_names@.len(),
                names == file_names@.map_values(|s: String| s@),
                i <= n,
                states@.map_values(|s: String| s@) == state_ids(names.subrange(0, i as int)),
            decreases n - i,
        {
            let ghost before = states@;
            proof {
                assert(names.subrange(0, i + 1).drop_last() =~= names.subrange(0, i as int));
                assert(names.subrange(0, i + 1).last() == file_names@[i as int]@);
            }
            match StateManager::state_id_of(file_names[i].as_str()) {
                Some(id) => {
                    states.push(id);
                    assert(states@.map_values(|s: String| s@) =~= before.map_values(
                        |s: String| s@,
                    ).push(id@));
                },
                None => {},
            }
            i += 1;
        }
        proof {
            assert(names.subrange(0, n as int) =~= names);
        }
        Ok(states)
    }
}

/// Lock release: an update that took the lock on `id` at `now` and has
/// come back leaves the lock table as it was without `id`, whatever its
/// reading, its function and its writing gave. So the lock on `id` is free
/// at every time `later`, and taking it then succeeds.
pub proof fn law_update_releases_lock(
    locks: Map<Seq<char>, u128>,
    timeout: u64,
    id: Seq<char>,
    now: u128,
    later: u128,
)
    ensures
        after_lock(locks, id, now).remove(id) == locks.remove(id),
        !held(after_lock(locks, id, now).remove(id), timeout, id, later),
{
    assert(after_lock(locks, id, now).remove(id) =~= locks.remove(id));
}

} // verus!
