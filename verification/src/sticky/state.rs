//! The mathematical model of an affinity store and of a sticky router.

use vstd::prelude::*;

use crate::protocols::WorkerWithDpRank;
use crate::sticky::router::{
    AffinityBinding, AffinityBindingToken, AffinityEntry, AffinityKind, AffinityRebindToken,
    PendingAffinityBinding,
};
use crate::time::{Duration, Instant};

verus! {

/// What an affinity store holds.
#[verifier::ext_equal]
pub struct AffinityState {
    /// The binding of each session, expired ones that were not yet swept
    /// included.
    pub entries: Map<Seq<char>, AffinityEntry>,
    /// Expired engine-backed sessions are announced, so that they get closed.
    pub announces_expiry: bool,
    /// The store can move a session by an atomic shadow transition.
    pub atomic_rebind: bool,
    /// The announced sessions, each with the worker that holds it.
    pub expired: Seq<(Seq<char>, u64)>,
}

impl AffinityState {
    /// A store without bindings.
    pub open spec fn empty(announces_expiry: bool) -> AffinityState {
        AffinityState {
            entries: Map::empty(),
            announces_expiry,
            atomic_rebind: true,
            expired: Seq::empty(),
        }
    }

    /// The session has a binding that has not expired.
    pub open spec fn bound(self, session: Seq<char>, now: Instant) -> bool {
        self.entries.contains_key(session) && self.entries[session].alive(now)
    }

    /// The session has a binding that has expired.
    pub open spec fn lapsed(self, session: Seq<char>, now: Instant) -> bool {
        self.entries.contains_key(session) && !self.entries[session].alive(now)
    }

    /// The visible binding of a session.
    pub open spec fn visible(self, session: Seq<char>, now: Instant) -> Option<
        AffinityBindingToken,
    > {
        if self.bound(session, now) {
            Some(self.entries[session].spec_token())
        } else {
            None
        }
    }

    /// The target that the visible binding of a session names.
    pub open spec fn target(self, session: Seq<char>, now: Instant) -> Option<WorkerWithDpRank> {
        if self.bound(session, now) {
            Some(self.entries[session].worker)
        } else {
            None
        }
    }

    /// The visible binding of a session that no transition is pending for, in a
    /// store that can move sessions.
    pub open spec fn rebindable(self, session: Seq<char>, now: Instant) -> Option<
        AffinityBindingToken,
    > {
        if self.atomic_rebind && self.bound(session, now)
            && self.entries[session].pending_rebind is None {
            Some(self.entries[session].spec_token())
        } else {
            None
        }
    }

    pub open spec fn with_entry(self, session: Seq<char>, entry: AffinityEntry) -> AffinityState {
        AffinityState { entries: self.entries.insert(session, entry), ..self }
    }

    /// The binding of the session is gone.
    pub open spec fn removed(self, session: Seq<char>) -> AffinityState {
        AffinityState { entries: self.entries.remove(session), ..self }
    }

    /// The end of a session is announced where the engine holds it.
    pub open spec fn announced(self, session: Seq<char>, binding: AffinityBinding) -> AffinityState {
        if self.announces_expiry && binding.kind == AffinityKind::EngineBacked {
            AffinityState {
                expired: self.expired.push((session, binding.worker.worker_id)),
                ..self
            }
        } else {
            self
        }
    }

    /// An expired binding was met: it is removed, and announced.
    pub open spec fn evicted(self, session: Seq<char>) -> AffinityState {
        self.removed(session).announced(session, self.entries[session].spec_binding())
    }

    /// After a lookup that leaves the time to live alone.
    pub open spec fn peeked(self, session: Seq<char>, now: Instant) -> AffinityState {
        if self.lapsed(session, now) {
            self.evicted(session)
        } else {
            self
        }
    }

    /// After a lookup that starts the time to live anew.
    pub open spec fn refreshed(self, session: Seq<char>, now: Instant) -> AffinityState {
        if self.bound(session, now) {
            let entry = self.entries[session];
            self.with_entry(
                session,
                AffinityEntry { expires_at: now.spec_plus(entry.ttl), ..entry },
            )
        } else {
            self.peeked(session, now)
        }
    }

    /// After a rebind lookup: a store that cannot move sessions does nothing.
    pub open spec fn rebind_peeked(self, session: Seq<char>, now: Instant) -> AffinityState {
        if self.atomic_rebind {
            self.peeked(session, now)
        } else {
            self
        }
    }

    /// The token of a binding to `worker` under this revision.
    pub open spec fn binding_token(
        worker: WorkerWithDpRank,
        kind: AffinityKind,
        revision: u64,
    ) -> AffinityBindingToken {
        AffinityBindingToken { binding: AffinityBinding { worker, kind }, revision }
    }

    /// After binding a session under this revision.
    pub open spec fn put(
        self,
        session: Seq<char>,
        worker: WorkerWithDpRank,
        ttl: Duration,
        kind: AffinityKind,
        revision: u64,
        now: Instant,
    ) -> AffinityState {
        self.with_entry(
            session,
            AffinityEntry {
                worker,
                ttl,
                expires_at: now.spec_plus(ttl),
                kind,
                revision,
                pending_rebind: None,
            },
        )
    }

    /// The binding of a session, expired or not.
    pub open spec fn stored_binding(self, session: Seq<char>) -> Option<AffinityBinding> {
        if self.entries.contains_key(session) {
            Some(self.entries[session].spec_binding())
        } else {
            None
        }
    }

    /// The stored binding of the session is the one that `token` stands for.
    pub open spec fn holds(self, session: Seq<char>, token: AffinityBindingToken) -> bool {
        self.entries.contains_key(session) && self.entries[session].spec_token() == token
    }

    /// After a removal under the condition that `token` is still current.
    pub open spec fn removed_if(
        self,
        session: Seq<char>,
        token: AffinityBindingToken,
    ) -> AffinityState {
        if self.holds(session, token) {
            self.removed(session)
        } else {
            self
        }
    }

    /// A shadow transition may start: `expected` is the visible binding and no
    /// other transition is pending.
    pub open spec fn can_begin(
        self,
        session: Seq<char>,
        expected: AffinityBindingToken,
        now: Instant,
    ) -> bool {
        self.rebindable(session, now) == Some(expected)
    }

    /// The token of a transition to `cold` under this revision.
    pub open spec fn rebind_token(
        expected: AffinityBindingToken,
        cold: WorkerWithDpRank,
        revision: u64,
    ) -> AffinityRebindToken {
        AffinityRebindToken {
            previous: expected,
            pending: AffinityState::binding_token(cold, expected.binding.kind, revision),
        }
    }

    /// After an attempt to start a shadow transition under this revision.
    pub open spec fn begun(
        self,
        session: Seq<char>,
        expected: AffinityBindingToken,
        cold: WorkerWithDpRank,
        ttl: Duration,
        revision: u64,
        now: Instant,
    ) -> AffinityState {
        if self.can_begin(session, expected, now) {
            self.with_entry(
                session,
                AffinityEntry {
                    pending_rebind: Some(
                        PendingAffinityBinding {
                            token: AffinityState::rebind_token(expected, cold, revision).pending,
                            ttl,
                        },
                    ),
                    ..self.entries[session]
                },
            )
        } else {
            self
        }
    }

    /// The transition is still current, on a binding that has not expired.
    pub open spec fn can_commit(
        self,
        session: Seq<char>,
        token: AffinityRebindToken,
        now: Instant,
    ) -> bool {
        self.atomic_rebind && self.bound(session, now) && self.entries[session].transitions_by(
            token,
        )
    }

    /// After an attempt to publish the pending binding.
    pub open spec fn committed(
        self,
        session: Seq<char>,
        token: AffinityRebindToken,
        now: Instant,
    ) -> AffinityState {
        if self.can_commit(session, token, now) {
            let pending = self.entries[session].pending_rebind->0;
            self.with_entry(
                session,
                AffinityEntry {
                    worker: pending.token.binding.worker,
                    ttl: pending.ttl,
                    expires_at: now.spec_plus(pending.ttl),
                    kind: pending.token.binding.kind,
                    revision: pending.token.revision,
                    pending_rebind: None,
                },
            )
        } else {
            self
        }
    }

    /// The transition is still current, on a binding that may have expired.
    pub open spec fn can_roll_back(self, session: Seq<char>, token: AffinityRebindToken) -> bool {
        self.atomic_rebind && self.entries.contains_key(session)
            && self.entries[session].transitions_by(token)
    }

    /// After an attempt to discard the pending binding.
    pub open spec fn rolled_back(
        self,
        session: Seq<char>,
        token: AffinityRebindToken,
    ) -> AffinityState {
        if self.can_roll_back(session, token) {
            self.with_entry(
                session,
                AffinityEntry { pending_rebind: None, ..self.entries[session] },
            )
        } else {
            self
        }
    }

    /// The announcement of an expired session is due in a sweep.
    pub open spec fn announcement_due(self, notice: (Seq<char>, u64), now: Instant) -> bool {
        &&& self.announces_expiry
        &&& self.lapsed(notice.0, now)
        &&& self.entries[notice.0].kind == AffinityKind::EngineBacked
        &&& self.entries[notice.0].worker.worker_id == notice.1
    }

    /// `swept` is this state after a sweep: exactly the expired bindings are
    /// gone, and each engine-backed one among them was announced once, in no
    /// particular order.
    pub open spec fn sweeps_to(self, swept: AffinityState, now: Instant) -> bool {
        &&& swept.announces_expiry == self.announces_expiry
        &&& swept.atomic_rebind == self.atomic_rebind
        &&& swept.entries == Map::new(
            |session: Seq<char>| self.bound(session, now),
            |session: Seq<char>| self.entries[session],
        )
        &&& self.expired.len() <= swept.expired.len()
        &&& swept.expired.subrange(0, self.expired.len() as int) == self.expired
        &&& swept.expired.skip(self.expired.len() as int).no_duplicates()
        &&& forall|notice: (Seq<char>, u64)| #[trigger]
            swept.expired.skip(self.expired.len() as int).contains(notice)
                <==> self.announcement_due(notice, now)
    }

    /// No binding carries a revision from `next` on, and a pending binding has a
    /// later revision than the visible one.
    pub open spec fn revisions_below(self, next: u64) -> bool {
        forall|session: Seq<char>| #[trigger]
            self.entries.contains_key(session) ==> {
                let entry = self.entries[session];
                &&& entry.revision < next
                &&& entry.pending_rebind is Some ==> {
                    &&& entry.revision < entry.pending_rebind->0.token.revision
                    &&& entry.pending_rebind->0.token.revision < next
                    &&& entry.pending_rebind->0.token.binding.kind == entry.kind
                }
            }
    }
}

/// What a sticky router holds.
#[verifier::ext_equal]
pub struct RouterState {
    pub store: AffinityState,
    /// The last rebind of each session, as far as one was stamped.
    pub last_rebind: Map<Seq<char>, Instant>,
    /// The number of committed rebinds of each session that had any.
    pub rebind_counts: Map<Seq<char>, u32>,
    /// The reading that the router's clock counts from.
    pub epoch: std::time::Instant,
}

impl RouterState {
    /// A router around `store` that has not rebound any session.
    pub open spec fn around(store: AffinityState, epoch: std::time::Instant) -> RouterState {
        RouterState { store, last_rebind: Map::empty(), rebind_counts: Map::empty(), epoch }
    }

    /// The router's clock shows this point in time at some moment.
    pub open spec fn shows(self, now: Instant) -> bool {
        crate::time::shown_since(self.epoch, now)
    }

    pub open spec fn with_store(self, store: AffinityState) -> RouterState {
        RouterState { store, ..self }
    }

    /// The number of committed rebinds of a session.
    pub open spec fn rebinds(self, session: Seq<char>) -> u32 {
        if self.rebind_counts.contains_key(session) {
            self.rebind_counts[session]
        } else {
            0
        }
    }

    /// The session was stamped less than `cooldown` ago.
    pub open spec fn cooling(self, session: Seq<char>, cooldown: Duration, now: Instant) -> bool {
        self.last_rebind.contains_key(session) && now.spec_within(
            cooldown,
            self.last_rebind[session],
        )
    }

    /// An engine-backed session cannot leave its worker.
    pub open spec fn crosses_engine(
        expected: AffinityBindingToken,
        cold: WorkerWithDpRank,
    ) -> bool {
        expected.binding.kind == AffinityKind::EngineBacked
            && expected.binding.worker.worker_id != cold.worker_id
    }

    /// A shadow transition of the session may start.
    pub open spec fn can_begin(
        self,
        session: Seq<char>,
        expected: AffinityBindingToken,
        cold: WorkerWithDpRank,
        now: Instant,
    ) -> bool {
        !RouterState::crosses_engine(expected, cold) && self.store.can_begin(
            session,
            expected,
            now,
        )
    }

    /// After an attempt to start a shadow transition.
    pub open spec fn begun(
        self,
        session: Seq<char>,
        expected: AffinityBindingToken,
        cold: WorkerWithDpRank,
        ttl: Duration,
        revision: u64,
        now: Instant,
    ) -> RouterState {
        if RouterState::crosses_engine(expected, cold) {
            self
        } else {
            self.with_store(self.store.begun(session, expected, cold, ttl, revision, now))
        }
    }

    /// After an attempt to publish the pending binding: on success the session
    /// is stamped and counted.
    pub open spec fn committed(
        self,
        session: Seq<char>,
        token: AffinityRebindToken,
        now: Instant,
    ) -> RouterState {
        if self.store.can_commit(session, token, now) {
            RouterState {
                store: self.store.committed(session, token, now),
                last_rebind: self.last_rebind.insert(session, now),
                rebind_counts: self.rebind_counts.insert(
                    session,
                    (self.rebinds(session) + 1) as u32,
                ),
                ..self
            }
        } else {
            self
        }
    }

    /// After an attempt to discard the pending binding: a cooldown that the
    /// session is under starts anew.
    pub open spec fn rolled_back(
        self,
        session: Seq<char>,
        token: AffinityRebindToken,
        now: Instant,
    ) -> RouterState {
        RouterState {
            store: self.store.rolled_back(session, token),
            last_rebind: if self.last_rebind.contains_key(session) {
                self.last_rebind.insert(session, now)
            } else {
                self.last_rebind
            },
            ..self
        }
    }
}

/// What a session coordinator holds.
#[verifier::ext_equal]
pub struct CoordinatorState {
    pub router: RouterState,
    /// The request that owns the prefill turn of each session that has one.
    pub turns: Map<Seq<char>, Seq<char>>,
}

impl CoordinatorState {
    pub open spec fn with_router(self, router: RouterState) -> CoordinatorState {
        CoordinatorState { router, ..self }
    }

    pub open spec fn with_store(self, store: AffinityState) -> CoordinatorState {
        self.with_router(self.router.with_store(store))
    }

    /// After the session's turn was given to `owner`.
    pub open spec fn turn_taken(self, session: Seq<char>, owner: Seq<char>) -> CoordinatorState {
        CoordinatorState { turns: self.turns.insert(session, owner), ..self }
    }

    /// After `owner` gave the session's turn back. A turn that belongs to
    /// another request is left alone.
    pub open spec fn turn_released(self, session: Seq<char>, owner: Seq<char>) -> CoordinatorState {
        if self.turns.contains_key(session) && self.turns[session] == owner {
            CoordinatorState { turns: self.turns.remove(session), ..self }
        } else {
            self
        }
    }

    /// After an attempt to publish a pending binding: one that is no longer
    /// current is discarded.
    pub open spec fn settled(
        self,
        session: Seq<char>,
        token: AffinityRebindToken,
        now: Instant,
    ) -> CoordinatorState {
        if self.router.store.can_commit(session, token, now) {
            self.with_router(self.router.committed(session, token, now))
        } else {
            self.abandoned(session, token, now)
        }
    }

    /// After a pending binding was given up.
    pub open spec fn abandoned(
        self,
        session: Seq<char>,
        token: AffinityRebindToken,
        now: Instant,
    ) -> CoordinatorState {
        self.with_router(self.router.rolled_back(session, token, now))
    }
}

} // verus!
