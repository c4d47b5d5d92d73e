//! Sticky session routing with pluggable affinity storage.
//!
//! Router-side session affinity: all requests of a multi-turn session are
//! routed to the same `(worker, dp_rank)`. The affinity store is trait-based:
//! [`InMemoryAffinityStore`] keeps its bindings in a concurrent hash map, and
//! stores that share their bindings between routers can take its place.
//!
//! Affinity is bound at `(worker, dp_rank)` granularity, so that engines with
//! several data-parallel ranks keep a conversation on the one rank whose
//! prefix cache is warm. No call to the worker is involved.

use vstd::prelude::*;

use crate::maps;
use crate::protocols::WorkerWithDpRank;
use crate::sticky::revisions::AffinityRevisions;
use crate::sticky::state::{AffinityState, RouterState};
use crate::time::{Clock, Duration, Instant};

verus! {

/// Seconds between two sweeps of expired bindings.
pub const REAPER_INTERVAL_SECS: u64 = 30;

/// Whether the worker knows about the session.
#[derive(Clone, Copy, Debug, PartialEq, Eq, Structural)]
pub enum AffinityKind {
    /// Only the router does.
    RouterOnly,
    /// The engine holds a session that has to be closed.
    EngineBacked,
}

/// The target of a session.
#[derive(Clone, Copy, Debug, PartialEq, Eq, Structural)]
pub struct AffinityBinding {
    pub worker: WorkerWithDpRank,
    pub kind: AffinityKind,
}

/// A binding together with the revision under which it was made.
#[derive(Clone, Copy, Debug, PartialEq, Eq, Structural)]
pub struct AffinityBindingToken {
    pub binding: AffinityBinding,
    pub revision: u64,
}

/// Token for a pending compare-and-rebind transition.
///
/// The old binding remains visible until this token is committed. Both commit
/// and rollback compare the old and the pending revision, so that a bind or a
/// removal in between always wins and is never overwritten.
#[derive(Clone, Copy, Debug, PartialEq, Eq, Structural)]
pub struct AffinityRebindToken {
    pub previous: AffinityBindingToken,
    pub pending: AffinityBindingToken,
}

/// The binding that a shadow transition is about to publish.
#[derive(Clone, Copy, Debug)]
pub struct PendingAffinityBinding {
    pub token: AffinityBindingToken,
    pub ttl: Duration,
}

/// A stored binding with a sliding time to live.
#[derive(Clone, Copy, Debug)]
pub struct AffinityEntry {
    pub worker: WorkerWithDpRank,
    pub ttl: Duration,
    pub expires_at: Instant,
    pub kind: AffinityKind,
    pub revision: u64,
    pub pending_rebind: Option<PendingAffinityBinding>,
}

impl AffinityEntry {
    pub open spec fn spec_binding(self) -> AffinityBinding {
        AffinityBinding { worker: self.worker, kind: self.kind }
    }

    pub open spec fn spec_token(self) -> AffinityBindingToken {
        AffinityBindingToken { binding: self.spec_binding(), revision: self.revision }
    }

    /// The binding has not expired.
    pub open spec fn alive(self, now: Instant) -> bool {
        self.expires_at.nanos > now.nanos
    }

    /// The pending transition of the entry is the one that `token` stands for.
    pub open spec fn transitions_by(self, token: AffinityRebindToken) -> bool {
        &&& self.spec_token() == token.previous
        &&& self.pending_rebind is Some
        &&& self.pending_rebind->0.token == token.pending
    }

    pub fn binding(&self) -> (binding: AffinityBinding)
        ensures
            binding == self.spec_binding(),
    {
        AffinityBinding { worker: self.worker, kind: self.kind }
    }

    pub fn token(&self) -> (token: AffinityBindingToken)
        ensures
            token == self.spec_token(),
    {
        AffinityBindingToken { binding: self.binding(), revision: self.revision }
    }

    /// Whether the binding has not expired.
    pub fn is_alive(&self, now: Instant) -> (alive: bool)
        ensures
            alive == self.alive(now),
    {
        self.expires_at.nanos > now.nanos
    }

    /// Whether the pending transition is the one that `token` stands for.
    fn is_transition(&self, token: AffinityRebindToken) -> (same: bool)
        ensures
            same == self.transitions_by(token),
    {
        if self.token() != token.previous {
            return false;
        }
        match self.pending_rebind {
            Some(pending) => pending.token == token.pending,
            None => false,
        }
    }
}

/// Storage backend for session affinity.
///
/// Holds `(worker, dp_rank)` as an atomic routing target. `get` serves turns
/// without a lifecycle action and starts the time to live anew; `peek` is for
/// lifecycle actions that must not extend affinity until the worker confirms
/// success. Time is handed in by the caller, and so is the counter that gives
/// out revisions, which all the stores of a process share.
///
/// A store without atomic transition support says so in `state`; its rebind
/// methods then do nothing.
pub trait AffinityStore: Send + Sync {
    /// What the store holds.
    spec fn state(&self) -> AffinityState;

    /// The target of a session, or `None` if it is unknown or expired. A hit
    /// starts the time to live anew.
    fn get(&mut self, session_id: &str, now: Instant) -> (worker: Option<WorkerWithDpRank>)
        requires
            now.in_range(),
        ensures
            worker == old(self).state().target(session_id@, now),
            final(self).state() == old(self).state().refreshed(session_id@, now),
    ;

    /// The target of a session; the time to live runs on.
    fn peek(&mut self, session_id: &str, now: Instant) -> (worker: Option<WorkerWithDpRank>)
        ensures
            worker == old(self).state().target(session_id@, now),
            final(self).state() == old(self).state().peeked(session_id@, now),
    ;

    /// The visible binding with its revision; the time to live runs on. Unlike
    /// a rebind lookup this also answers while a transition is pending.
    fn peek_binding_token(&mut self, session_id: &str, now: Instant) -> (token: Option<
        AffinityBindingToken,
    >)
        ensures
            token == old(self).state().visible(session_id@, now),
            final(self).state() == old(self).state().peeked(session_id@, now),
    ;

    /// The visible binding with its revision, only while no transition is
    /// pending.
    fn peek_rebind_token(&mut self, session_id: &str, now: Instant) -> (token: Option<
        AffinityBindingToken,
    >)
        ensures
            token == old(self).state().rebindable(session_id@, now),
            final(self).state() == old(self).state().rebind_peeked(session_id@, now),
    ;

    /// Bind a session to a `(worker, dp_rank)`.
    fn put(
        &mut self,
        session_id: &str,
        worker: WorkerWithDpRank,
        ttl: Duration,
        kind: AffinityKind,
        now: Instant,
        revisions: &mut AffinityRevisions,
    ) -> (token: AffinityBindingToken)
        requires
            now.in_range(),
        ensures
            token == AffinityState::binding_token(worker, kind, old(revisions).next()),
            final(self).state() == old(self).state().put(
                session_id@,
                worker,
                ttl,
                kind,
                old(revisions).next(),
                now,
            ),
            final(revisions).next() == old(revisions).after(true),
    ;

    /// Remove a session's binding and return it.
    fn remove(&mut self, session_id: &str) -> (binding: Option<AffinityBinding>)
        ensures
            binding == old(self).state().stored_binding(session_id@),
            final(self).state() == old(self).state().removed(session_id@),
    ;

    /// Remove a binding only if it is still the one that `token` stands for.
    fn remove_if_token(&mut self, session_id: &str, token: AffinityBindingToken) -> (removed: bool)
        ensures
            removed == old(self).state().holds(session_id@, token),
            final(self).state() == old(self).state().removed_if(session_id@, token),
    ;

    /// Start a shadow transition if `expected` is still current.
    fn begin_rebind(
        &mut self,
        session_id: &str,
        expected: AffinityBindingToken,
        cold: WorkerWithDpRank,
        ttl: Duration,
        now: Instant,
        revisions: &mut AffinityRevisions,
    ) -> (token: Option<AffinityRebindToken>)
        ensures
            old(self).state().can_begin(session_id@, expected, now) ==> token == Some(
                AffinityState::rebind_token(expected, cold, old(revisions).next()),
            ),
            !old(self).state().can_begin(session_id@, expected, now) ==> token is None,
            final(self).state() == old(self).state().begun(
                session_id@,
                expected,
                cold,
                ttl,
                old(revisions).next(),
                now,
            ),
            final(revisions).next() == old(revisions).after(token is Some),
    ;

    /// Publish the pending binding if the transition is still current.
    fn commit_rebind(
        &mut self,
        session_id: &str,
        token: AffinityRebindToken,
        now: Instant,
    ) -> (committed: bool)
        requires
            now.in_range(),
        ensures
            committed == old(self).state().can_commit(session_id@, token, now),
            final(self).state() == old(self).state().committed(session_id@, token, now),
    ;

    /// Discard the pending binding if the transition is still current.
    fn rollback_rebind(&mut self, session_id: &str, token: AffinityRebindToken) -> (rolled: bool)
        ensures
            rolled == old(self).state().can_roll_back(session_id@, token),
            final(self).state() == old(self).state().rolled_back(session_id@, token),
    ;
}

/// A list of announced sessions, by their contents.
pub open spec fn notices(listed: Seq<(String, u64)>) -> Seq<(Seq<char>, u64)> {
    Seq::new(listed.len(), |i: int| (listed[i].0@, listed[i].1))
}

/// Affinity store in memory, on a concurrent hash map.
///
/// Expired entries go when a lookup meets them and when the store is swept.
/// Tokens of two stores tell their bindings apart as long as both take their
/// revisions from the one counter of the process.
pub struct InMemoryAffinityStore {
    map: dashmap::DashMap<String, AffinityEntry>,
    on_expire: bool,
    expired: Vec<(String, u64)>,
}

impl InMemoryAffinityStore {
    /// An empty store that does not announce expired sessions.
    pub fn new() -> (store: InMemoryAffinityStore)
        ensures
            store.state() == AffinityState::empty(false),
    {
        InMemoryAffinityStore::new_with_on_expire(false)
    }

    /// An empty store. Where `on_expire` is set, expired engine-backed sessions
    /// are announced through [`Self::take_expired`].
    pub fn new_with_on_expire(on_expire: bool) -> (store: InMemoryAffinityStore)
        ensures
            store.state() == AffinityState::empty(on_expire),
    {
        let store = InMemoryAffinityStore {
            map: maps::entries_new(),
            on_expire,
            expired: Vec::new(),
        };
        assert(notices(store.expired@) =~= Seq::empty());
        store
    }

    /// The stored entry of a session, expired or not.
    pub fn entry(&self, session_id: &str) -> (entry: Option<AffinityEntry>)
        ensures
            match entry {
                Some(found) => self.state().entries.contains_key(session_id@) && found
                    == self.state().entries[session_id@],
                None => !self.state().entries.contains_key(session_id@),
            },
    {
        maps::entries_get(&self.map, session_id)
    }

    /// Put back an entry as it is. Its revisions should be ones that were given
    /// out: one that is still to come would be given to another binding too.
    pub fn restore(&mut self, session_id: &str, entry: AffinityEntry)
        ensures
            final(self).state() == old(self).state().with_entry(session_id@, entry),
    {
        maps::entries_insert(&mut self.map, session_id.to_owned(), entry);
    }

    /// Hand over the announced sessions, each with the worker that holds it.
    pub fn take_expired(&mut self) -> (listed: Vec<(String, u64)>)
        ensures
            notices(listed@) == old(self).state().expired,
            final(self).state() == (AffinityState { expired: Seq::empty(), ..old(self).state() }),
    {
        let mut listed: Vec<(String, u64)> = Vec::new();
        std::mem::swap(&mut listed, &mut self.expired);
        assert(notices(self.expired@) =~= Seq::empty());
        listed
    }

    /// Announce the end of a session where the engine holds it.
    fn announce(&mut self, session_id: String, binding: AffinityBinding)
        ensures
            final(self).state() == old(self).state().announced(session_id@, binding),
            final(self).map == old(self).map,
    {
        if self.on_expire && binding.kind == AffinityKind::EngineBacked {
            let ghost before = self.expired@;
            let ghost session = session_id@;
            self.expired.push((session_id, binding.worker.worker_id));
            assert(notices(self.expired@) =~= notices(before).push(
                (session, binding.worker.worker_id),
            ));
        }
    }

    /// Sweep the store: remove every expired binding and announce the
    /// engine-backed ones among them.
    pub fn reap_expired(&mut self, now: Instant)
        ensures
            old(self).state().sweeps_to(final(self).state(), now),
    {
        let listed = maps::entries_list(&self.map);
        let ghost start = self.state();
        let ghost mut tail: Seq<(Seq<char>, u64)> = Seq::empty();
        assert(start.expired + tail =~= start.expired);
        let mut i: usize = 0;
        while i < listed.len()
            invariant
                i <= listed@.len(),
                self.state() == (AffinityState { expired: start.expired + tail, ..start }),
                forall|k: int|
                    #![trigger listed@[k]]
                    0 <= k < listed@.len() ==> start.entries.contains_key(listed@[k].0@)
                        && start.entries[listed@[k].0@] == listed@[k].1,
                forall|k: int, j: int|
                    #![trigger listed@[k], listed@[j]]
                    0 <= k < j < listed@.len() ==> listed@[k].0@ != listed@[j].0@,
                forall|k: int|
                    #![trigger tail[k]]
                    0 <= k < tail.len() ==> start.announcement_due(tail[k], now) && exists|j: int|
                        0 <= j < i && (#[trigger] listed@[j]).0@ == tail[k].0,
                tail.no_duplicates(),
                forall|j: int|
                    #![trigger listed@[j]]
                    0 <= j < i && start.announcement_due(
                        (listed@[j].0@, listed@[j].1.worker.worker_id),
                        now,
                    ) ==> tail.contains((listed@[j].0@, listed@[j].1.worker.worker_id)),
            decreases listed@.len() - i,
        {
            let entry = listed[i].1;
            let ghost notice = (listed@[i as int].0@, entry.worker.worker_id);
            let ghost before = tail;
            if !entry.is_alive(now) {
                self.announce(listed[i].0.clone(), entry.binding());
                proof {
                    if start.announcement_due(notice, now) {
                        tail = before.push(notice);
                        assert((start.expired + before).push(notice) =~= start.expired + tail);
                        assert forall|k: int| 0 <= k < before.len() implies #[trigger] before[k]
                            != notice by {
                            let j = choose|j: int|
                                0 <= j < i && (#[trigger] listed@[j]).0@ == before[k].0;
                            assert(listed@[j].0@ != listed@[i as int].0@);
                        }
                        assert(tail[before.len() as int] == notice);
                    }
                }
            }
            proof {
                assert forall|pair: (Seq<char>, u64)| before.contains(pair) implies tail.contains(
                    pair,
                ) by {
                    let k = choose|k: int| 0 <= k < before.len() && before[k] == pair;
                    assert(tail[k] == pair);
                }
                assert forall|k: int| 0 <= k < tail.len() implies exists|j: int|
                    0 <= j < i + 1 && (#[trigger] listed@[j]).0@ == (#[trigger] tail[k]).0 by {
                    if k < before.len() {
                        assert(tail[k] == before[k]);
                        let j = choose|j: int|
                            0 <= j < i && (#[trigger] listed@[j]).0@ == before[k].0;
                        assert(listed@[j].0@ == tail[k].0);
                    } else {
                        assert(listed@[i as int].0@ == tail[k].0);
                    }
                }
            }
            i += 1;
        }
        maps::entries_retain_alive(&mut self.map, now);
        proof {
            let swept = self.state();
            assert(swept.entries =~= Map::new(
                |session: Seq<char>| start.bound(session, now),
                |session: Seq<char>| start.entries[session],
            ));
            assert(swept.expired.subrange(0, start.expired.len() as int) =~= start.expired);
            assert(swept.expired.skip(start.expired.len() as int) =~= tail);
            assert forall|notice: (Seq<char>, u64)| #[trigger] tail.contains(notice)
                <==> start.announcement_due(notice, now) by {
                if start.announcement_due(notice, now) {
                    assert(start.entries.contains_key(notice.0));
                    let j = choose|j: int|
                        0 <= j < listed@.len() && (#[trigger] listed@[j]).0@ == notice.0;
                    assert(listed@[j].1 == start.entries[notice.0]);
                }
            }
        }
    }

    /// Look up a session. With `require_no_pending_rebind` a session with a
    /// pending transition is a miss; with `refresh` a hit starts the time to
    /// live anew. An expired binding goes in any case.
    fn lookup_token(
        &mut self,
        session_id: &str,
        refresh: bool,
        require_no_pending_rebind: bool,
        now: Instant,
    ) -> (token: Option<AffinityBindingToken>)
        requires
            refresh ==> now.in_range(),
        ensures
            require_no_pending_rebind ==> token == old(self).state().rebindable(session_id@, now),
            !require_no_pending_rebind ==> token == old(self).state().visible(session_id@, now),
            final(self).state() == if refresh && token is Some {
                old(self).state().refreshed(session_id@, now)
            } else {
                old(self).state().peeked(session_id@, now)
            },
    {
        let found = maps::entries_get(&self.map, session_id);
        let mut entry = match found {
            Some(entry) => entry,
            None => return None,
        };
        if !entry.is_alive(now) {
            self.remove_expired_if_current(session_id, entry.binding(), entry.expires_at, now);
            return None;
        }
        if require_no_pending_rebind && entry.pending_rebind.is_some() {
            return None;
        }
        let token = entry.token();
        if refresh {
            entry.expires_at = now.plus(entry.ttl);
            maps::entries_insert(&mut self.map, session_id.to_owned(), entry);
        }
        Some(token)
    }

    /// Remove an expired binding, unless it was replaced since it was read, and
    /// announce it.
    pub fn remove_expired_if_current(
        &mut self,
        session_id: &str,
        binding: AffinityBinding,
        expires_at: Instant,
        now: Instant,
    )
        ensures
            ({
                let state = old(self).state();
                let current = state.lapsed(session_id@, now) && state.entries[session_id@].worker
                    == binding.worker && state.entries[session_id@].expires_at == expires_at;
                final(self).state() == if current {
                    state.removed(session_id@).announced(session_id@, binding)
                } else {
                    state
                }
            }),
    {
        let current = match maps::entries_get(&self.map, session_id) {
            Some(entry) => entry.worker == binding.worker && entry.expires_at == expires_at
                && !entry.is_alive(now),
            None => false,
        };
        if !current {
            return ;
        }
        let _ = maps::entries_remove(&mut self.map, session_id);
        self.announce(session_id.to_owned(), binding);
    }
}

impl Default for InMemoryAffinityStore {
    /// An empty store that does not announce expired sessions.
    fn default() -> (store: InMemoryAffinityStore)
        ensures
            store.state() == AffinityState::empty(false),
    {
        InMemoryAffinityStore::new()
    }
}

impl AffinityStore for InMemoryAffinityStore {
    closed spec fn state(&self) -> AffinityState {
        AffinityState {
            entries: maps::affinity_entries(self.map),
            announces_expiry: self.on_expire,
            atomic_rebind: true,
            expired: notices(self.expired@),
        }
    }

    fn get(&mut self, session_id: &str, now: Instant) -> (worker: Option<WorkerWithDpRank>) {
        match self.lookup_token(session_id, true, false, now) {
            Some(token) => Some(token.binding.worker),
            None => None,
        }
    }

    fn peek(&mut self, session_id: &str, now: Instant) -> (worker: Option<WorkerWithDpRank>) {
        match self.lookup_token(session_id, false, false, now) {
            Some(token) => Some(token.binding.worker),
            None => None,
        }
    }

    fn peek_binding_token(&mut self, session_id: &str, now: Instant) -> (token: Option<
        AffinityBindingToken,
    >) {
        self.lookup_token(session_id, false, false, now)
    }

    fn peek_rebind_token(&mut self, session_id: &str, now: Instant) -> (token: Option<
        AffinityBindingToken,
    >) {
        self.lookup_token(session_id, false, true, now)
    }

    fn put(
        &mut self,
        session_id: &str,
        worker: WorkerWithDpRank,
        ttl: Duration,
        kind: AffinityKind,
        now: Instant,
        revisions: &mut AffinityRevisions,
    ) -> (token: AffinityBindingToken) {
        let revision = revisions.take();
        let entry = AffinityEntry {
            worker,
            ttl,
            expires_at: now.plus(ttl),
            kind,
            revision,
            pending_rebind: None,
        };
        maps::entries_insert(&mut self.map, session_id.to_owned(), entry);
        entry.token()
    }

    fn remove(&mut self, session_id: &str) -> (binding: Option<AffinityBinding>) {
        match maps::entries_remove(&mut self.map, session_id) {
            Some(entry) => Some(entry.binding()),
            None => None,
        }
    }

    fn remove_if_token(
        &mut self,
        session_id: &str,
        token: AffinityBindingToken,
    ) -> (removed: bool) {
        let current = match maps::entries_get(&self.map, session_id) {
            Some(entry) => entry.token() == token,
            None => false,
        };
        if current {
            let _ = maps::entries_remove(&mut self.map, session_id);
        }
        current
    }

    fn begin_rebind(
        &mut self,
        session_id: &str,
        expected: AffinityBindingToken,
        cold: WorkerWithDpRank,
        ttl: Duration,
        now: Instant,
        revisions: &mut AffinityRevisions,
    ) -> (token: Option<AffinityRebindToken>) {
        let mut entry = match maps::entries_get(&self.map, session_id) {
            Some(entry) => entry,
            None => return None,
        };
        if !entry.is_alive(now) || entry.token() != expected || entry.pending_rebind.is_some() {
            return None;
        }
        let pending = AffinityBindingToken {
            binding: AffinityBinding { worker: cold, kind: expected.binding.kind },
            revision: revisions.take(),
        };
        entry.pending_rebind = Some(PendingAffinityBinding { token: pending, ttl });
        maps::entries_insert(&mut self.map, session_id.to_owned(), entry);
        Some(AffinityRebindToken { previous: expected, pending })
    }

    fn commit_rebind(
        &mut self,
        session_id: &str,
        token: AffinityRebindToken,
        now: Instant,
    ) -> (committed: bool) {
        let mut entry = match maps::entries_get(&self.map, session_id) {
            Some(entry) => entry,
            None => return false,
        };
        if !entry.is_alive(now) || entry.token() != token.previous {
            return false;
        }
        let pending = match entry.pending_rebind {
            Some(pending) => pending,
            None => return false,
        };
        if pending.token != token.pending {
            return false;
        }
        entry.pending_rebind = None;
        entry.worker = pending.token.binding.worker;
        entry.kind = pending.token.binding.kind;
        entry.revision = pending.token.revision;
        entry.ttl = pending.ttl;
        entry.expires_at = now.plus(pending.ttl);
        maps::entries_insert(&mut self.map, session_id.to_owned(), entry);
        true
    }

    fn rollback_rebind(&mut self, session_id: &str, token: AffinityRebindToken) -> (rolled: bool) {
        let mut entry = match maps::entries_get(&self.map, session_id) {
            Some(entry) => entry,
            None => return false,
        };
        if !entry.is_transition(token) {
            return false;
        }
        entry.pending_rebind = None;
        maps::entries_insert(&mut self.map, session_id.to_owned(), entry);
        true
    }
}

/// A store in memory can always move sessions by atomic transitions.
pub proof fn law_in_memory_store_moves_sessions(store: &InMemoryAffinityStore)
    ensures
        store.state().atomic_rebind,
{
}

/// Routes requests to workers based on session affinity.
///
/// Wraps an [`AffinityStore`], throttles rebinds and counts them. Each method
/// that depends on the time comes in two forms: one that reads the router's
/// clock, and one, named `.._at`, that is told the time.
pub struct StickySessionRouter<S: AffinityStore> {
    pub store: S,
    /// The last rebind of each session. A session that expires from the store
    /// leaves a stale stamp, which the next rebind overwrites; a stamp never
    /// brings affinity back, it only holds up a further rebind.
    last_rebind: dashmap::DashMap<String, Instant>,
    rebind_counts: dashmap::DashMap<String, u32>,
    clock: Clock,
}

impl<S: AffinityStore> StickySessionRouter<S> {
    /// What the router holds.
    pub closed spec fn state(&self) -> RouterState {
        RouterState {
            store: self.store.state(),
            last_rebind: maps::stamp_entries(self.last_rebind),
            rebind_counts: maps::count_entries(self.rebind_counts),
            epoch: self.clock.epoch(),
        }
    }

    /// A router around `store`.
    pub fn new(store: S) -> (router: StickySessionRouter<S>)
        ensures
            router.state() == RouterState::around(store.state(), router.state().epoch),
    {
        StickySessionRouter {
            store,
            last_rebind: maps::stamps_new(),
            rebind_counts: maps::counts_new(),
            clock: Clock::start(),
        }
    }

    /// The router's clock shows this point in time at some moment.
    pub open spec fn shows(&self, now: Instant) -> bool {
        self.state().shows(now)
    }

    /// The present moment on the router's clock.
    pub fn now(&self) -> (now: Instant)
        ensures
            self.shows(now),
            now.in_range(),
    {
        self.clock.now()
    }

    /// The target of a session; a hit starts its time to live anew.
    pub fn resolve_session_at(&mut self, session_id: &str, now: Instant) -> (worker: Option<
        WorkerWithDpRank,
    >)
        requires
            now.in_range(),
        ensures
            worker == old(self).state().store.target(session_id@, now),
            final(self).state() == old(self).state().with_store(
                old(self).state().store.refreshed(session_id@, now),
            ),
    {
        self.store.get(session_id, now)
    }

    /// The target of a session; a hit starts its time to live anew.
    pub fn resolve_session(&mut self, session_id: &str) -> (worker: Option<WorkerWithDpRank>)
        ensures
            exists|now: Instant| #[trigger]
                old(self).shows(now) && now.in_range() && worker == old(self).state().store.target(session_id@, now)
                    && final(self).state() == old(self).state().with_store(
                    old(self).state().store.refreshed(session_id@, now),
                ),
    {
        let now = self.now();
        self.resolve_session_at(session_id, now)
    }

    /// The target of a session; its time to live runs on.
    pub fn peek_session_at(&mut self, session_id: &str, now: Instant) -> (worker: Option<
        WorkerWithDpRank,
    >)
        ensures
            worker == old(self).state().store.target(session_id@, now),
            final(self).state() == old(self).state().with_store(
                old(self).state().store.peeked(session_id@, now),
            ),
    {
        self.store.peek(session_id, now)
    }

    /// The target of a session; its time to live runs on.
    pub fn peek_session(&mut self, session_id: &str) -> (worker: Option<WorkerWithDpRank>)
        ensures
            exists|now: Instant| #[trigger]
                old(self).shows(now) && now.in_range() && worker == old(self).state().store.target(session_id@, now)
                    && final(self).state() == old(self).state().with_store(
                    old(self).state().store.peeked(session_id@, now),
                ),
    {
        let now = self.now();
        self.peek_session_at(session_id, now)
    }

    /// The visible binding and its revision, also while a transition is
    /// pending.
    pub fn peek_binding_token_at(&mut self, session_id: &str, now: Instant) -> (token: Option<
        AffinityBindingToken,
    >)
        ensures
            token == old(self).state().store.visible(session_id@, now),
            final(self).state() == old(self).state().with_store(
                old(self).state().store.peeked(session_id@, now),
            ),
    {
        self.store.peek_binding_token(session_id, now)
    }

    /// The visible binding and its revision, also while a transition is
    /// pending.
    pub fn peek_binding_token(&mut self, session_id: &str) -> (token: Option<AffinityBindingToken>)
        ensures
            exists|now: Instant| #[trigger]
                old(self).shows(now) && now.in_range() && token == old(self).state().store.visible(session_id@, now)
                    && final(self).state() == old(self).state().with_store(
                    old(self).state().store.peeked(session_id@, now),
                ),
    {
        let now = self.now();
        self.peek_binding_token_at(session_id, now)
    }

    /// A revision token for a rebind decision. A session with a transition in
    /// flight is no candidate.
    pub fn peek_rebind_token_at(&mut self, session_id: &str, now: Instant) -> (token: Option<
        AffinityBindingToken,
    >)
        ensures
            token == old(self).state().store.rebindable(session_id@, now),
            final(self).state() == old(self).state().with_store(
                old(self).state().store.rebind_peeked(session_id@, now),
            ),
    {
        self.store.peek_rebind_token(session_id, now)
    }

    /// A revision token for a rebind decision. A session with a transition in
    /// flight is no candidate.
    pub fn peek_rebind_token(&mut self, session_id: &str) -> (token: Option<AffinityBindingToken>)
        ensures
            exists|now: Instant| #[trigger]
                old(self).shows(now) && now.in_range() && token == old(self).state().store.rebindable(session_id@, now)
                    && final(self).state() == old(self).state().with_store(
                    old(self).state().store.rebind_peeked(session_id@, now),
                ),
    {
        let now = self.now();
        self.peek_rebind_token_at(session_id, now)
    }

    /// Bind a session to a `(worker, dp_rank)`.
    pub fn bind_at(
        &mut self,
        session_id: &str,
        worker: WorkerWithDpRank,
        ttl: Duration,
        kind: AffinityKind,
        now: Instant,
        revisions: &mut AffinityRevisions,
    ) -> (token: AffinityBindingToken)
        requires
            now.in_range(),
        ensures
            token == AffinityState::binding_token(worker, kind, old(revisions).next()),
            final(self).state() == old(self).state().with_store(
                old(self).state().store.put(
                    session_id@,
                    worker,
                    ttl,
                    kind,
                    old(revisions).next(),
                    now,
                ),
            ),
            final(revisions).next() == old(revisions).after(true),
    {
        self.store.put(session_id, worker, ttl, kind, now, revisions)
    }

    /// Bind a session to a `(worker, dp_rank)`.
    pub fn bind(
        &mut self,
        session_id: &str,
        worker: WorkerWithDpRank,
        ttl: Duration,
        kind: AffinityKind,
        revisions: &mut AffinityRevisions,
    ) -> (token: AffinityBindingToken)
        ensures
            token == AffinityState::binding_token(worker, kind, old(revisions).next()),
            exists|now: Instant| #[trigger]
                old(self).shows(now) && now.in_range() && final(self).state() == old(
                    self,
                ).state().with_store(
                    old(self).state().store.put(
                        session_id@,
                        worker,
                        ttl,
                        kind,
                        old(revisions).next(),
                        now,
                    ),
                ),
            final(revisions).next() == old(revisions).after(true),
    {
        let now = self.now();
        self.bind_at(session_id, worker, ttl, kind, now, revisions)
    }

    /// Start a shadow rebind; what a lookup returns does not change. The
    /// expected revision makes this a compare-and-set. An engine-backed session
    /// is not taken to another worker.
    pub fn begin_rebind_at(
        &mut self,
        session_id: &str,
        expected: AffinityBindingToken,
        cold: WorkerWithDpRank,
        ttl: Duration,
        now: Instant,
        revisions: &mut AffinityRevisions,
    ) -> (token: Option<AffinityRebindToken>)
        ensures
            old(self).state().can_begin(session_id@, expected, cold, now) ==> token == Some(
                AffinityState::rebind_token(expected, cold, old(revisions).next()),
            ),
            !old(self).state().can_begin(session_id@, expected, cold, now) ==> token is None,
            final(self).state() == old(self).state().begun(
                session_id@,
                expected,
                cold,
                ttl,
                old(revisions).next(),
                now,
            ),
            final(revisions).next() == old(revisions).after(token is Some),
    {
        if expected.binding.kind == AffinityKind::EngineBacked
            && expected.binding.worker.worker_id != cold.worker_id {
            return None;
        }
        self.store.begin_rebind(session_id, expected, cold, ttl, now, revisions)
    }

    /// Start a shadow rebind; what a lookup returns does not change.
    pub fn begin_rebind(
        &mut self,
        session_id: &str,
        expected: AffinityBindingToken,
        cold: WorkerWithDpRank,
        ttl: Duration,
        revisions: &mut AffinityRevisions,
    ) -> (token: Option<AffinityRebindToken>)
        ensures
            exists|now: Instant| #[trigger]
                old(self).shows(now) && now.in_range() && final(self).state() == old(self).state().begun(
                    session_id@,
                    expected,
                    cold,
                    ttl,
                    old(revisions).next(),
                    now,
                ) && token == if old(self).state().can_begin(session_id@, expected, cold, now) {
                    Some(AffinityState::rebind_token(expected, cold, old(revisions).next()))
                } else {
                    None
                },
            final(revisions).next() == old(revisions).after(token is Some),
    {
        let now = self.now();
        self.begin_rebind_at(session_id, expected, cold, ttl, now, revisions)
    }

    /// Publish a shadow rebind, stamp the session and count the rebind.
    pub fn commit_rebind_at(
        &mut self,
        session_id: &str,
        token: AffinityRebindToken,
        now: Instant,
    ) -> (committed: bool)
        requires
            now.in_range(),
            old(self).state().store.can_commit(session_id@, token, now) ==> old(
                self,
            ).state().rebinds(session_id@) < u32::MAX,
        ensures
            committed == old(self).state().store.can_commit(session_id@, token, now),
            final(self).state() == old(self).state().committed(session_id@, token, now),
    {
        if !self.store.commit_rebind(session_id, token, now) {
            return false;
        }
        let count = self.rebind_count(session_id);
        maps::stamps_insert(&mut self.last_rebind, session_id.to_owned(), now);
        maps::counts_insert(&mut self.rebind_counts, session_id.to_owned(), count + 1);
        true
    }

    /// Publish a shadow rebind, stamp the session and count the rebind.
    pub fn commit_rebind(&mut self, session_id: &str, token: AffinityRebindToken) -> (committed:
        bool)
        requires
            old(self).state().store.can_roll_back(session_id@, token) ==> old(
                self,
            ).state().rebinds(session_id@) < u32::MAX,
        ensures
            exists|now: Instant| #[trigger]
                old(self).shows(now) && now.in_range() && committed == old(self).state().store.can_commit(
                    session_id@,
                    token,
                    now,
                ) && final(self).state() == old(self).state().committed(session_id@, token, now),
    {
        let now = self.now();
        self.commit_rebind_at(session_id, token, now)
    }

    /// Discard a shadow rebind without disturbing a newer binding.
    ///
    /// A session that was rebound before gets its stamp reset, so that the
    /// cooldown runs from the rollback and not from the rebind before it. A
    /// session that never was rebound gets no stamp.
    pub fn rollback_rebind_at(
        &mut self,
        session_id: &str,
        token: AffinityRebindToken,
        now: Instant,
    ) -> (rolled: bool)
        ensures
            rolled == old(self).state().store.can_roll_back(session_id@, token),
            final(self).state() == old(self).state().rolled_back(session_id@, token, now),
    {
        let rolled = self.store.rollback_rebind(session_id, token);
        if maps::stamps_get(&self.last_rebind, session_id).is_some() {
            maps::stamps_insert(&mut self.last_rebind, session_id.to_owned(), now);
        }
        rolled
    }

    /// Discard a shadow rebind without disturbing a newer binding.
    pub fn rollback_rebind(&mut self, session_id: &str, token: AffinityRebindToken) -> (rolled:
        bool)
        ensures
            rolled == old(self).state().store.can_roll_back(session_id@, token),
            exists|now: Instant| #[trigger]
                old(self).shows(now) && now.in_range() && final(self).state() == old(self).state().rolled_back(
                    session_id@,
                    token,
                    now,
                ),
    {
        let now = self.now();
        self.rollback_rebind_at(session_id, token, now)
    }

    /// The number of committed rebinds of a session.
    pub fn rebind_count(&self, session_id: &str) -> (count: u32)
        ensures
            count == self.state().rebinds(session_id@),
    {
        match maps::counts_get(&self.rebind_counts, session_id) {
            Some(count) => count,
            None => 0,
        }
    }

    /// Whether the session was rebound less than `cooldown` ago.
    pub fn in_rebind_cooldown_at(
        &self,
        session_id: &str,
        cooldown: Duration,
        now: Instant,
    ) -> (cooling: bool)
        ensures
            cooling == self.state().cooling(session_id@, cooldown, now),
    {
        match maps::stamps_get(&self.last_rebind, session_id) {
            Some(last) => now.within(cooldown, last),
            None => false,
        }
    }

    /// Whether the session was rebound less than `cooldown` ago.
    pub fn in_rebind_cooldown(&self, session_id: &str, cooldown: Duration) -> (cooling: bool)
        ensures
            exists|now: Instant| #[trigger]
                self.shows(now) && now.in_range() && cooling == self.state().cooling(session_id@, cooldown, now),
    {
        let now = self.now();
        self.in_rebind_cooldown_at(session_id, cooldown, now)
    }

    /// Remove a session's binding and return it.
    pub fn unbind(&mut self, session_id: &str) -> (binding: Option<AffinityBinding>)
        ensures
            binding == old(self).state().store.stored_binding(session_id@),
            final(self).state() == old(self).state().with_store(
                old(self).state().store.removed(session_id@),
            ),
    {
        self.store.remove(session_id)
    }

    /// Remove a binding only if it is still the one that `token` stands for.
    pub fn unbind_if_token(&mut self, session_id: &str, token: AffinityBindingToken) -> (removed:
        bool)
        ensures
            removed == old(self).state().store.holds(session_id@, token),
            final(self).state() == old(self).state().with_store(
                old(self).state().store.removed_if(session_id@, token),
            ),
    {
        self.store.remove_if_token(session_id, token)
    }
}

/// A router around a store in memory can always rebind sessions.
pub proof fn law_router_in_memory_moves_sessions(
    router: &StickySessionRouter<InMemoryAffinityStore>,
)
    ensures
        router.state().store.atomic_rebind,
{
}

impl StickySessionRouter<InMemoryAffinityStore> {
    /// Whether the stored binding of the session is the one that `token` stands
    /// for.
    pub fn holds_token(&self, session_id: &str, token: AffinityBindingToken) -> (held: bool)
        ensures
            held == self.state().store.holds(session_id@, token),
    {
        match self.store.entry(session_id) {
            Some(entry) => entry.token() == token,
            None => false,
        }
    }

    /// The visible binding and its revision. Nothing changes: an expired binding
    /// is left for the next sweep.
    pub fn visible_token_at(&self, session_id: &str, now: Instant) -> (token: Option<
        AffinityBindingToken,
    >)
        ensures
            token == self.state().store.visible(session_id@, now),
    {
        match self.store.entry(session_id) {
            Some(entry) => {
                if entry.is_alive(now) {
                    Some(entry.token())
                } else {
                    None
                }
            },
            None => None,
        }
    }

    /// Remove the expired bindings from the store.
    pub fn reap_expired_at(&mut self, now: Instant)
        ensures
            old(self).state().store.sweeps_to(final(self).state().store, now),
            final(self).state() == old(self).state().with_store(final(self).state().store),
    {
        self.store.reap_expired(now);
    }

    /// Remove the expired bindings from the store.
    pub fn reap_expired(&mut self)
        ensures
            exists|now: Instant| #[trigger]
                old(self).shows(now) && now.in_range() && old(self).state().store.sweeps_to(
                    final(self).state().store,
                    now,
                ),
            final(self).state() == old(self).state().with_store(final(self).state().store),
    {
        let now = self.now();
        self.reap_expired_at(now);
    }

    /// Hand over the announced sessions, each with the worker that holds it.
    pub fn take_expired(&mut self) -> (listed: Vec<(String, u64)>)
        ensures
            notices(listed@) == old(self).state().store.expired,
            final(self).state() == old(self).state().with_store(
                (AffinityState { expired: Seq::empty(), ..old(self).state().store }),
            ),
    {
        self.store.take_expired()
    }
}

} // verus!
