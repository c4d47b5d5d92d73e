//! What the operations of sticky routing give back.
//!
//! Each law takes one call of an operation, or several in a row, and relates what
//! came out to what went in, by the entries of the store and the fields of the
//! request.

use vstd::prelude::*;

use crate::protocols::WorkerWithDpRank;
use crate::sticky::revisions::AffinityRevisions;
use crate::sticky::router::{
    AffinityBinding, AffinityBindingToken, AffinityEntry, AffinityKind, AffinityRebindToken,
    AffinityStore, InMemoryAffinityStore, StickySessionRouter,
};
use crate::sticky::state::{AffinityState, RouterState};
use crate::time::{Duration, Instant};

verus! {

/// The two stores agree on everything but the binding of one session.
pub open spec fn differ_in_binding_only(
    before: AffinityState,
    after: AffinityState,
    session: Seq<char>,
) -> bool {
    &&& forall|other: Seq<char>|
        #![trigger after.entries.contains_key(other)]
        #![trigger before.entries.contains_key(other)]
        other != session ==> after.entries.contains_key(other) == before.entries.contains_key(other)
            && (before.entries.contains_key(other) ==> after.entries[other]
            == before.entries[other])
    &&& after.expired == before.expired
    &&& after.announces_expiry == before.announces_expiry
    &&& after.atomic_rebind == before.atomic_rebind
}

/// The two routers agree on everything but their stores.
pub open spec fn differ_in_store_only(before: RouterState, after: RouterState) -> bool {
    &&& after.last_rebind == before.last_rebind
    &&& after.rebind_counts == before.rebind_counts
    &&& after.epoch == before.epoch
}

/// The session has a binding whose deadline lies after `now`.
pub open spec fn lives(store: AffinityState, session: Seq<char>, now: Instant) -> bool {
    store.entries.contains_key(session) && now.nanos < store.entries[session].expires_at.nanos
}

/// The transition is pending on the binding that it began on.
pub open spec fn shadows(
    store: AffinityState,
    session: Seq<char>,
    token: AffinityRebindToken,
) -> bool {
    let entry = store.entries[session];
    &&& store.atomic_rebind
    &&& store.entries.contains_key(session)
    &&& entry.worker == token.previous.binding.worker
    &&& entry.kind == token.previous.binding.kind
    &&& entry.revision == token.previous.revision
    &&& entry.pending_rebind is Some
    &&& entry.pending_rebind->0.token == token.pending
}

/// A lookup at `now` that found no live binding left `after` of `before`: an
/// expired binding is gone, and announced if the engine holds the session and
/// the store announces. Nothing else changed.
pub open spec fn missed(
    before: AffinityState,
    after: AffinityState,
    session: Seq<char>,
    now: Instant,
) -> bool {
    if before.entries.contains_key(session) {
        let gone = before.entries[session];
        &&& gone.expires_at.nanos <= now.nanos
        &&& !after.entries.contains_key(session)
        &&& differ_in_binding_only(
            before,
            (AffinityState { expired: before.expired, ..after }),
            session,
        )
        &&& if gone.kind == AffinityKind::EngineBacked && before.announces_expiry {
            after.expired == before.expired.push((session, gone.worker.worker_id))
        } else {
            after.expired == before.expired
        }
    } else {
        after == before
    }
}

/// A bind puts the session on exactly the rank it was given, under the revision
/// that it handed back, until the time to live has passed. The revision is the
/// next one of the counter. No other session is touched.
pub open spec fn puts(
    before: RouterState,
    after: RouterState,
    session: Seq<char>,
    worker: WorkerWithDpRank,
    ttl: Duration,
    kind: AffinityKind,
    next: u64,
    next_after: u64,
    now: Instant,
    token: AffinityBindingToken,
) -> bool {
    let made = after.store.entries[session];
    &&& token.binding.worker == worker
    &&& token.binding.kind == kind
    &&& token.revision == next
    &&& next < u64::MAX ==> next_after == next + 1
    &&& after.store.entries.contains_key(session)
    &&& made.worker == worker
    &&& made.kind == kind
    &&& made.revision == token.revision
    &&& made.pending_rebind is None
    &&& made.ttl == ttl
    &&& made.expires_at.nanos == now.nanos + ttl.secs * 1000000000 + ttl.subsec_nanos
    &&& differ_in_binding_only(before.store, after.store, session)
    &&& differ_in_store_only(before, after)
}

/// What `bind_at` gives back, for every moment.
pub proof fn law_bind_result<S: AffinityStore>(
    router: &mut StickySessionRouter<S>,
    session_id: &str,
    worker: WorkerWithDpRank,
    ttl: Duration,
    kind: AffinityKind,
    now: Instant,
    revisions: &mut AffinityRevisions,
    token: AffinityBindingToken,
)
    requires
        now.in_range(),
        call_ensures(
            StickySessionRouter::<S>::bind_at,
            (router, session_id, worker, ttl, kind, now, revisions),
            token,
        ),
    ensures
        puts(
            old(router).state(),
            final(router).state(),
            session_id@,
            worker,
            ttl,
            kind,
            old(revisions).next(),
            final(revisions).next(),
            now,
            token,
        ),
{
}

/// What `bind` gives back, as of a moment that the router's clock shows.
pub proof fn law_clocked_bind_result<S: AffinityStore>(
    router: &mut StickySessionRouter<S>,
    session_id: &str,
    worker: WorkerWithDpRank,
    ttl: Duration,
    kind: AffinityKind,
    revisions: &mut AffinityRevisions,
    token: AffinityBindingToken,
)
    requires
        call_ensures(
            StickySessionRouter::<S>::bind,
            (router, session_id, worker, ttl, kind, revisions),
            token,
        ),
    ensures
        exists|now: Instant| #[trigger]
            old(router).shows(now) && puts(
                old(router).state(),
                final(router).state(),
                session_id@,
                worker,
                ttl,
                kind,
                old(revisions).next(),
                final(revisions).next(),
                now,
                token,
            ),
{
}

/// A lookup that extends affinity answers the rank of a live binding and gives it
/// its whole time to live from now on; a pending transition and everything else
/// of the binding stay. Without a live binding it answers nothing.
pub open spec fn resolves(
    before: RouterState,
    after: RouterState,
    session: Seq<char>,
    now: Instant,
    worker: Option<WorkerWithDpRank>,
) -> bool {
    &&& worker is Some <==> lives(before.store, session, now)
    &&& worker is Some ==> {
        let was = before.store.entries[session];
        let is = after.store.entries[session];
        &&& worker == Some(was.worker)
        &&& after.store.entries.contains_key(session)
        &&& is.expires_at.nanos == now.nanos + was.ttl.secs * 1000000000
            + was.ttl.subsec_nanos
        &&& is.worker == was.worker
        &&& is.ttl == was.ttl
        &&& is.kind == was.kind
        &&& is.revision == was.revision
        &&& is.pending_rebind == was.pending_rebind
        &&& differ_in_binding_only(
            before.store,
            after.store,
            session,
        )
    }
    &&& worker is None ==> missed(
        before.store,
        after.store,
        session,
        now,
    )
    &&& differ_in_store_only(before, after)
}

/// What `resolve_session_at` gives back, for every moment.
pub proof fn law_resolve_result<S: AffinityStore>(
    router: &mut StickySessionRouter<S>,
    session_id: &str,
    now: Instant,
    worker: Option<WorkerWithDpRank>,
)
    requires
        now.in_range(),
        call_ensures(
            StickySessionRouter::<S>::resolve_session_at,
            (router, session_id, now),
            worker,
        ),
    ensures
        resolves(
            old(router).state(),
            final(router).state(),
            session_id@,
            now,
            worker,
        ),
{
}

/// What `resolve_session` gives back, as of a moment that the router's clock shows.
pub proof fn law_clocked_resolve_result<S: AffinityStore>(
    router: &mut StickySessionRouter<S>,
    session_id: &str,
    worker: Option<WorkerWithDpRank>,
)
    requires
        call_ensures(
            StickySessionRouter::<S>::resolve_session,
            (router, session_id),
            worker,
        ),
    ensures
        exists|now: Instant| #[trigger]
            old(router).shows(now) && resolves(
                old(router).state(),
                final(router).state(),
                session_id@,
                now,
                worker,
            ),
{
}

/// A peek answers the rank of a live binding and changes nothing by it.
pub open spec fn peeks(
    before: RouterState,
    after: RouterState,
    session: Seq<char>,
    now: Instant,
    worker: Option<WorkerWithDpRank>,
) -> bool {
    &&& worker is Some <==> lives(before.store, session, now)
    &&& worker is Some ==> worker == Some(
        before.store.entries[session].worker,
    ) && after == before
    &&& worker is None ==> missed(
        before.store,
        after.store,
        session,
        now,
    )
    &&& differ_in_store_only(before, after)
}

/// What `peek_session_at` gives back, for every moment.
pub proof fn law_peek_result<S: AffinityStore>(
    router: &mut StickySessionRouter<S>,
    session_id: &str,
    now: Instant,
    worker: Option<WorkerWithDpRank>,
)
    requires
        call_ensures(
            StickySessionRouter::<S>::peek_session_at,
            (router, session_id, now),
            worker,
        ),
    ensures
        peeks(
            old(router).state(),
            final(router).state(),
            session_id@,
            now,
            worker,
        ),
{
}

/// What `peek_session` gives back, as of a moment that the router's clock shows.
pub proof fn law_clocked_peek_result<S: AffinityStore>(
    router: &mut StickySessionRouter<S>,
    session_id: &str,
    worker: Option<WorkerWithDpRank>,
)
    requires
        call_ensures(
            StickySessionRouter::<S>::peek_session,
            (router, session_id),
            worker,
        ),
    ensures
        exists|now: Instant| #[trigger]
            old(router).shows(now) && peeks(
                old(router).state(),
                final(router).state(),
                session_id@,
                now,
                worker,
            ),
{
}

/// The token of a live binding names its rank, kind and revision, also while a
/// transition is pending, and reading it changes nothing.
pub open spec fn reads_token(
    before: RouterState,
    after: RouterState,
    session: Seq<char>,
    now: Instant,
    token: Option<AffinityBindingToken>,
) -> bool {
    &&& token is Some <==> lives(before.store, session, now)
    &&& token is Some ==> {
        let entry = before.store.entries[session];
        &&& token->0.binding.worker == entry.worker
        &&& token->0.binding.kind == entry.kind
        &&& token->0.revision == entry.revision
        &&& after == before
    }
    &&& token is None ==> missed(
        before.store,
        after.store,
        session,
        now,
    )
    &&& differ_in_store_only(before, after)
}

/// What `peek_binding_token_at` gives back, for every moment.
pub proof fn law_binding_token_result<S: AffinityStore>(
    router: &mut StickySessionRouter<S>,
    session_id: &str,
    now: Instant,
    token: Option<AffinityBindingToken>,
)
    requires
        call_ensures(
            StickySessionRouter::<S>::peek_binding_token_at,
            (router, session_id, now),
            token,
        ),
    ensures
        reads_token(
            old(router).state(),
            final(router).state(),
            session_id@,
            now,
            token,
        ),
{
}

/// What `peek_binding_token` gives back, as of a moment that the router's clock shows.
pub proof fn law_clocked_binding_token_result<S: AffinityStore>(
    router: &mut StickySessionRouter<S>,
    session_id: &str,
    token: Option<AffinityBindingToken>,
)
    requires
        call_ensures(
            StickySessionRouter::<S>::peek_binding_token,
            (router, session_id),
            token,
        ),
    ensures
        exists|now: Instant| #[trigger]
            old(router).shows(now) && reads_token(
                old(router).state(),
                final(router).state(),
                session_id@,
                now,
                token,
            ),
{
}

/// A token for a rebind is to be had exactly of a live binding without a pending
/// transition, in a store that has transitions.
pub open spec fn reads_rebind_token(
    before: RouterState,
    after: RouterState,
    session: Seq<char>,
    now: Instant,
    token: Option<AffinityBindingToken>,
) -> bool {
    &&& token is Some <==> before.store.atomic_rebind && lives(
        before.store,
        session,
        now,
    ) && before.store.entries[session].pending_rebind is None
    &&& token is Some ==> {
        let entry = before.store.entries[session];
        &&& token->0.binding.worker == entry.worker
        &&& token->0.binding.kind == entry.kind
        &&& token->0.revision == entry.revision
    }
    &&& lives(before.store, session, now) || !before.store.atomic_rebind ==> after == before
    &&& !lives(before.store, session, now) && before.store.atomic_rebind ==> missed(
        before.store,
        after.store,
        session,
        now,
    )
    &&& differ_in_store_only(before, after)
}

/// What `peek_rebind_token_at` gives back, for every moment.
pub proof fn law_rebind_token_result<S: AffinityStore>(
    router: &mut StickySessionRouter<S>,
    session_id: &str,
    now: Instant,
    token: Option<AffinityBindingToken>,
)
    requires
        call_ensures(
            StickySessionRouter::<S>::peek_rebind_token_at,
            (router, session_id, now),
            token,
        ),
    ensures
        reads_rebind_token(
            old(router).state(),
            final(router).state(),
            session_id@,
            now,
            token,
        ),
{
}

/// What `peek_rebind_token` gives back, as of a moment that the router's clock shows.
pub proof fn law_clocked_rebind_token_result<S: AffinityStore>(
    router: &mut StickySessionRouter<S>,
    session_id: &str,
    token: Option<AffinityBindingToken>,
)
    requires
        call_ensures(
            StickySessionRouter::<S>::peek_rebind_token,
            (router, session_id),
            token,
        ),
    ensures
        exists|now: Instant| #[trigger]
            old(router).shows(now) && reads_rebind_token(
                old(router).state(),
                final(router).state(),
                session_id@,
                now,
                token,
            ),
{
}

/// A transition starts exactly on a live binding that is still the expected one
/// and has none pending, and for an engine-backed session only on its own
/// worker. It leaves the binding as it is but for the pending rank, which keeps
/// the kind and gets the next revision.
pub open spec fn begins(
    before: RouterState,
    after: RouterState,
    session: Seq<char>,
    expected: AffinityBindingToken,
    cold: WorkerWithDpRank,
    ttl: Duration,
    next: u64,
    next_after: u64,
    now: Instant,
    token: Option<AffinityRebindToken>,
) -> bool {
    &&& token is Some <==> {
        let entry = before.store.entries[session];
        &&& before.store.atomic_rebind
        &&& lives(before.store, session, now)
        &&& entry.worker == expected.binding.worker
        &&& entry.kind == expected.binding.kind
        &&& entry.revision == expected.revision
        &&& entry.pending_rebind is None
        &&& entry.kind == AffinityKind::EngineBacked ==> cold.worker_id
            == entry.worker.worker_id
    }
    &&& token is Some ==> {
        let was = before.store.entries[session];
        let is = after.store.entries[session];
        &&& token->0.previous == expected
        &&& token->0.pending.binding.worker == cold
        &&& token->0.pending.binding.kind == expected.binding.kind
        &&& token->0.pending.revision == next
        &&& after.store.entries.contains_key(session)
        &&& is.pending_rebind is Some
        &&& is.pending_rebind->0.token == token->0.pending
        &&& is.pending_rebind->0.ttl == ttl
        &&& (AffinityEntry { pending_rebind: None, ..is }) == was
        &&& differ_in_binding_only(
            before.store,
            after.store,
            session,
        )
        &&& next < u64::MAX ==> next_after == next + 1
    }
    &&& token is None ==> after == before && next_after
        == next
    &&& differ_in_store_only(before, after)
}

/// What `begin_rebind_at` gives back, for every moment.
pub proof fn law_begin_rebind_result<S: AffinityStore>(
    router: &mut StickySessionRouter<S>,
    session_id: &str,
    expected: AffinityBindingToken,
    cold: WorkerWithDpRank,
    ttl: Duration,
    now: Instant,
    revisions: &mut AffinityRevisions,
    token: Option<AffinityRebindToken>,
)
    requires
        call_ensures(
            StickySessionRouter::<S>::begin_rebind_at,
            (router, session_id, expected, cold, ttl, now, revisions),
            token,
        ),
    ensures
        begins(
            old(router).state(),
            final(router).state(),
            session_id@,
            expected,
            cold,
            ttl,
            old(revisions).next(),
            final(revisions).next(),
            now,
            token,
        ),
{
}

/// What `begin_rebind` gives back, as of a moment that the router's clock shows.
pub proof fn law_clocked_begin_rebind_result<S: AffinityStore>(
    router: &mut StickySessionRouter<S>,
    session_id: &str,
    expected: AffinityBindingToken,
    cold: WorkerWithDpRank,
    ttl: Duration,
    revisions: &mut AffinityRevisions,
    token: Option<AffinityRebindToken>,
)
    requires
        call_ensures(
            StickySessionRouter::<S>::begin_rebind,
            (router, session_id, expected, cold, ttl, revisions),
            token,
        ),
    ensures
        exists|now: Instant| #[trigger]
            old(router).shows(now) && begins(
                old(router).state(),
                final(router).state(),
                session_id@,
                expected,
                cold,
                ttl,
                old(revisions).next(),
                final(revisions).next(),
                now,
                token,
            ),
{
}

/// A commit succeeds exactly while the binding that the transition began on is
/// live and has this transition pending. The session is then bound to the
/// pending rank for the time to live of the transition, counted once more and
/// stamped. Otherwise nothing changes.
pub open spec fn commits(
    before: RouterState,
    after: RouterState,
    session: Seq<char>,
    token: AffinityRebindToken,
    now: Instant,
    committed: bool,
) -> bool {
    &&& committed <==> {
        let entry = before.store.entries[session];
        &&& before.store.atomic_rebind
        &&& lives(before.store, session, now)
        &&& entry.worker == token.previous.binding.worker
        &&& entry.kind == token.previous.binding.kind
        &&& entry.revision == token.previous.revision
        &&& entry.pending_rebind is Some
        &&& entry.pending_rebind->0.token == token.pending
    }
    &&& committed ==> {
        let was = before.store.entries[session];
        let is = after.store.entries[session];
        let ttl = was.pending_rebind->0.ttl;
        &&& after.store.entries.contains_key(session)
        &&& is.worker == token.pending.binding.worker
        &&& is.kind == token.pending.binding.kind
        &&& is.revision == token.pending.revision
        &&& is.pending_rebind is None
        &&& is.ttl == ttl
        &&& is.expires_at.nanos == now.nanos + ttl.secs * 1000000000 + ttl.subsec_nanos
        &&& differ_in_binding_only(
            before.store,
            after.store,
            session,
        )
        &&& after.last_rebind == before.last_rebind.insert(
            session,
            now,
        )
        &&& after.rebind_counts.contains_key(session)
        &&& after.rebind_counts[session] == 1 + if before.rebind_counts.contains_key(session) {
            before.rebind_counts[session]
        } else {
            0u32
        }
        &&& after.rebind_counts == before.rebind_counts.insert(
            session,
            after.rebind_counts[session],
        )
        &&& after.epoch == before.epoch
    }
    &&& !committed ==> after == before
}

/// What `commit_rebind_at` gives back, for every moment.
pub proof fn law_commit_rebind_result<S: AffinityStore>(
    router: &mut StickySessionRouter<S>,
    session_id: &str,
    token: AffinityRebindToken,
    now: Instant,
    committed: bool,
)
    requires
        now.in_range(),
        committed ==> old(router).state().rebinds(session_id@) < u32::MAX,
        call_ensures(
            StickySessionRouter::<S>::commit_rebind_at,
            (router, session_id, token, now),
            committed,
        ),
    ensures
        commits(
            old(router).state(),
            final(router).state(),
            session_id@,
            token,
            now,
            committed,
        ),
{
}

/// What `commit_rebind` gives back, as of a moment that the router's clock shows.
pub proof fn law_clocked_commit_rebind_result<S: AffinityStore>(
    router: &mut StickySessionRouter<S>,
    session_id: &str,
    token: AffinityRebindToken,
    committed: bool,
)
    requires
        committed ==> old(router).state().rebinds(session_id@) < u32::MAX,
        call_ensures(
            StickySessionRouter::<S>::commit_rebind,
            (router, session_id, token),
            committed,
        ),
    ensures
        exists|now: Instant| #[trigger]
            old(router).shows(now) && commits(
                old(router).state(),
                final(router).state(),
                session_id@,
                token,
                now,
                committed,
            ),
{
}

/// A rollback finds the transition exactly while it is pending on the binding
/// that it began on, expired or not, and takes only the pending rank away. A
/// stamp that the session has moves to now; no rebind is counted.
pub open spec fn rolls_back(
    before: RouterState,
    after: RouterState,
    session: Seq<char>,
    token: AffinityRebindToken,
    now: Instant,
    rolled: bool,
) -> bool {
    &&& rolled <==> {
        let entry = before.store.entries[session];
        &&& before.store.atomic_rebind
        &&& before.store.entries.contains_key(session)
        &&& entry.worker == token.previous.binding.worker
        &&& entry.kind == token.previous.binding.kind
        &&& entry.revision == token.previous.revision
        &&& entry.pending_rebind is Some
        &&& entry.pending_rebind->0.token == token.pending
    }
    &&& rolled ==> {
        let was = before.store.entries[session];
        let is = after.store.entries[session];
        &&& after.store.entries.contains_key(session)
        &&& is.pending_rebind is None
        &&& (AffinityEntry { pending_rebind: was.pending_rebind, ..is }) == was
        &&& differ_in_binding_only(
            before.store,
            after.store,
            session,
        )
    }
    &&& !rolled ==> after.store == before.store
    &&& after.last_rebind == if before.last_rebind.contains_key(
        session,
    ) {
        before.last_rebind.insert(session, now)
    } else {
        before.last_rebind
    }
    &&& after.rebind_counts == before.rebind_counts
    &&& after.epoch == before.epoch
}

/// What `rollback_rebind_at` gives back, for every moment.
pub proof fn law_rollback_rebind_result<S: AffinityStore>(
    router: &mut StickySessionRouter<S>,
    session_id: &str,
    token: AffinityRebindToken,
    now: Instant,
    rolled: bool,
)
    requires
        call_ensures(
            StickySessionRouter::<S>::rollback_rebind_at,
            (router, session_id, token, now),
            rolled,
        ),
    ensures
        rolls_back(
            old(router).state(),
            final(router).state(),
            session_id@,
            token,
            now,
            rolled,
        ),
{
}

/// What `rollback_rebind` gives back, as of a moment that the router's clock shows.
pub proof fn law_clocked_rollback_rebind_result<S: AffinityStore>(
    router: &mut StickySessionRouter<S>,
    session_id: &str,
    token: AffinityRebindToken,
    rolled: bool,
)
    requires
        call_ensures(
            StickySessionRouter::<S>::rollback_rebind,
            (router, session_id, token),
            rolled,
        ),
    ensures
        exists|now: Instant| #[trigger]
            old(router).shows(now) && rolls_back(
                old(router).state(),
                final(router).state(),
                session_id@,
                token,
                now,
                rolled,
            ),
{
}

/// The number of rebinds of a session is what was counted for it, and zero for a
/// session without any. It is under cooldown exactly while less than the cooldown
/// has passed since its stamp, and never without one.
pub proof fn law_throttle_results<S: AffinityStore>(
    router: &StickySessionRouter<S>,
    session_id: &str,
    cooldown: Duration,
    now: Instant,
    count: u32,
    cooling: bool,
)
    requires
        call_ensures(StickySessionRouter::<S>::rebind_count, (router, session_id), count),
        call_ensures(
            StickySessionRouter::<S>::in_rebind_cooldown_at,
            (router, session_id, cooldown, now),
            cooling,
        ),
    ensures
        count > 0 ==> router.state().rebind_counts.contains_key(session_id@),
        router.state().rebind_counts.contains_key(session_id@) ==> count
            == router.state().rebind_counts[session_id@],
        cooling <==> {
            let span = cooldown.secs * 1000000000 + cooldown.subsec_nanos;
            let stamp = router.state().last_rebind[session_id@];
            &&& router.state().last_rebind.contains_key(session_id@)
            &&& if stamp.nanos <= now.nanos {
                now.nanos < stamp.nanos + span
            } else {
                0 < span
            }
        },
{
}

/// Removing a binding hands back what was bound, expired or not, and leaves no
/// binding.
pub open spec fn unbinds(
    before: RouterState,
    after: RouterState,
    session: Seq<char>,
    binding: Option<AffinityBinding>,
) -> bool {
    let entry = before.store.entries[session];
    &&& binding is Some <==> before.store.entries.contains_key(session)
    &&& binding is Some ==> binding->0.worker == entry.worker && binding->0.kind == entry.kind
    &&& !after.store.entries.contains_key(session)
    &&& differ_in_binding_only(before.store, after.store, session)
    &&& differ_in_store_only(before, after)
}

/// Removing a binding by a token does so exactly if the token is that of the
/// stored binding.
pub open spec fn unbinds_if(
    before: RouterState,
    after: RouterState,
    session: Seq<char>,
    token: AffinityBindingToken,
    removed: bool,
) -> bool {
    let entry = before.store.entries[session];
    &&& removed <==> {
        &&& before.store.entries.contains_key(session)
        &&& entry.worker == token.binding.worker
        &&& entry.kind == token.binding.kind
        &&& entry.revision == token.revision
    }
    &&& removed ==> !after.store.entries.contains_key(session) && differ_in_binding_only(
        before.store,
        after.store,
        session,
    )
    &&& !removed ==> after == before
    &&& differ_in_store_only(before, after)
}

/// What `unbind` gives back.
pub proof fn law_unbind_result<S: AffinityStore>(
    router: &mut StickySessionRouter<S>,
    session_id: &str,
    binding: Option<AffinityBinding>,
)
    requires
        call_ensures(StickySessionRouter::<S>::unbind, (router, session_id), binding),
    ensures
        unbinds(old(router).state(), final(router).state(), session_id@, binding),
{
}

/// What `unbind_if_token` gives back.
pub proof fn law_unbind_if_token_result<S: AffinityStore>(
    router: &mut StickySessionRouter<S>,
    session_id: &str,
    token: AffinityBindingToken,
    removed: bool,
)
    requires
        call_ensures(
            StickySessionRouter::<S>::unbind_if_token,
            (router, session_id, token),
            removed,
        ),
    ensures
        unbinds_if(old(router).state(), final(router).state(), session_id@, token, removed),
{
}

/// A new router has no stamps and no counts, and holds what its store holds.
pub proof fn law_new_router_result<S: AffinityStore>(store: S, router: StickySessionRouter<S>)
    requires
        call_ensures(StickySessionRouter::<S>::new, (store,), router),
    ensures
        router.state().store == store.state(),
        forall|session: Seq<char>| !router.state().last_rebind.contains_key(session),
        forall|session: Seq<char>| !router.state().rebind_counts.contains_key(session),
{
}

/// A bound session is found by a lookup at any later time before its deadline,
/// and at no time after it.
pub proof fn law_bind_then_peek<S: AffinityStore>(
    router: &mut StickySessionRouter<S>,
    session_id: &str,
    worker: WorkerWithDpRank,
    ttl: Duration,
    kind: AffinityKind,
    now: Instant,
    revisions: &mut AffinityRevisions,
    token: AffinityBindingToken,
    again: &mut StickySessionRouter<S>,
    later: Instant,
    found: Option<WorkerWithDpRank>,
)
    requires
        now.in_range(),
        call_ensures(
            StickySessionRouter::<S>::bind_at,
            (router, session_id, worker, ttl, kind, now, revisions),
            token,
        ),
        old(again).state() == final(router).state(),
        call_ensures(StickySessionRouter::<S>::peek_session_at, (again, session_id, later), found),
    ensures
        later.nanos < now.nanos + ttl.secs * 1000000000 + ttl.subsec_nanos ==> found == Some(
            worker,
        ),
        later.nanos >= now.nanos + ttl.secs * 1000000000 + ttl.subsec_nanos ==> found is None,
{
}

/// What `in_rebind_cooldown` says, it says of a moment that the router's clock
/// shows.
pub proof fn law_clocked_cooldown_result<S: AffinityStore>(
    router: &StickySessionRouter<S>,
    session_id: &str,
    cooldown: Duration,
    cooling: bool,
)
    requires
        call_ensures(
            StickySessionRouter::<S>::in_rebind_cooldown,
            (router, session_id, cooldown),
            cooling,
        ),
    ensures
        exists|now: Instant| #[trigger]
            router.shows(now) && (cooling <==> {
                let span = cooldown.secs * 1000000000 + cooldown.subsec_nanos;
                let stamp = router.state().last_rebind[session_id@];
                &&& router.state().last_rebind.contains_key(session_id@)
                &&& if stamp.nanos <= now.nanos {
                    now.nanos < stamp.nanos + span
                } else {
                    0 < span
                }
            }),
{
}

/// A rebind that begins, and is committed while its session is still bound, moves
/// the session: a lookup then answers the cold rank for the time to live of the
/// rebind, where it answered the hot one until the commit.
pub proof fn law_begin_commit_peek<S: AffinityStore>(
    first: &mut StickySessionRouter<S>,
    session_id: &str,
    expected: AffinityBindingToken,
    cold: WorkerWithDpRank,
    ttl: Duration,
    begun_at: Instant,
    revisions: &mut AffinityRevisions,
    token: Option<AffinityRebindToken>,
    second: &mut StickySessionRouter<S>,
    committed_at: Instant,
    committed: bool,
    third: &mut StickySessionRouter<S>,
    later: Instant,
    found: Option<WorkerWithDpRank>,
)
    requires
        committed_at.in_range(),
        call_ensures(
            StickySessionRouter::<S>::begin_rebind_at,
            (first, session_id, expected, cold, ttl, begun_at, revisions),
            token,
        ),
        token is Some,
        old(second).state() == final(first).state(),
        call_ensures(
            StickySessionRouter::<S>::commit_rebind_at,
            (second, session_id, token->0, committed_at),
            committed,
        ),
        old(third).state() == final(second).state(),
        call_ensures(StickySessionRouter::<S>::peek_session_at, (third, session_id, later), found),
    ensures
        committed <==> lives(old(first).state().store, session_id@, committed_at),
        committed ==> found == if later.nanos < committed_at.nanos + ttl.secs * 1000000000
            + ttl.subsec_nanos {
            Some(cold)
        } else {
            None
        },
        !committed && lives(old(first).state().store, session_id@, later) ==> found == Some(
            expected.binding.worker,
        ),
{
}

/// The stored entry of a session, a read that changes nothing, and the test for a
/// token agree with each other.
pub proof fn law_reads_agree(
    router: &StickySessionRouter<InMemoryAffinityStore>,
    store: &InMemoryAffinityStore,
    session_id: &str,
    token: AffinityBindingToken,
    now: Instant,
    entry: Option<AffinityEntry>,
    held: bool,
    visible: Option<AffinityBindingToken>,
)
    requires
        router.state().store == store.state(),
        call_ensures(InMemoryAffinityStore::entry, (store, session_id), entry),
        call_ensures(
            StickySessionRouter::<InMemoryAffinityStore>::holds_token,
            (router, session_id, token),
            held,
        ),
        call_ensures(
            StickySessionRouter::<InMemoryAffinityStore>::visible_token_at,
            (router, session_id, now),
            visible,
        ),
    ensures
        entry is Some <==> store.state().entries.contains_key(session_id@),
        entry is Some ==> entry->0 == store.state().entries[session_id@],
        held <==> entry is Some && entry->0.worker == token.binding.worker && entry->0.kind
            == token.binding.kind && entry->0.revision == token.revision,
        visible is Some <==> entry is Some && now.nanos < entry->0.expires_at.nanos,
        visible is Some ==> visible->0.binding.worker == entry->0.worker && visible->0.binding.kind
            == entry->0.kind && visible->0.revision == entry->0.revision,
{
}

/// An entry that is put back is the stored one, and nothing else changed.
pub proof fn law_restore_result(
    store: &mut InMemoryAffinityStore,
    session_id: &str,
    entry: AffinityEntry,
)
    requires
        call_ensures(InMemoryAffinityStore::restore, (store, session_id, entry), ()),
    ensures
        final(store).state().entries.contains_key(session_id@),
        final(store).state().entries[session_id@] == entry,
        differ_in_binding_only(old(store).state(), final(store).state(), session_id@),
{
}

/// Exactly the bindings whose deadline lies after `now` survive a sweep, and they
/// survive as they are. Of the others, each one that the engine holds is
/// announced once with its worker, behind what was announced before, if the store
/// announces; no other session is.
pub open spec fn sweeps(before: AffinityState, after: AffinityState, now: Instant) -> bool {
    let fresh = after.expired.skip(before.expired.len() as int);
    &&& forall|session: Seq<char>| #[trigger]
        after.entries.contains_key(session) <==> lives(before, session, now)
    &&& forall|session: Seq<char>| #[trigger]
        after.entries.contains_key(session) ==> after.entries[session] == before.entries[session]
    &&& after.announces_expiry == before.announces_expiry
    &&& after.atomic_rebind == before.atomic_rebind
    &&& after.expired.len() >= before.expired.len()
    &&& after.expired.take(before.expired.len() as int) == before.expired
    &&& forall|i: int, j: int|
        #![trigger fresh[i], fresh[j]]
        0 <= i < j < fresh.len() ==> fresh[i].0 != fresh[j].0
    &&& forall|i: int|
        #![trigger fresh[i]]
        0 <= i < fresh.len() ==> {
            &&& before.announces_expiry
            &&& before.entries.contains_key(fresh[i].0)
            &&& before.entries[fresh[i].0].expires_at.nanos <= now.nanos
            &&& before.entries[fresh[i].0].kind == AffinityKind::EngineBacked
            &&& before.entries[fresh[i].0].worker.worker_id == fresh[i].1
        }
    &&& forall|session: Seq<char>| #[trigger]
        before.entries.contains_key(session) && before.announces_expiry
            && before.entries[session].expires_at.nanos <= now.nanos
            && before.entries[session].kind == AffinityKind::EngineBacked ==> exists|i: int|
            0 <= i < fresh.len() && (#[trigger] fresh[i]).0 == session
}

/// What a sweep of a store in memory leaves.
pub proof fn law_reap_result(store: &mut InMemoryAffinityStore, now: Instant)
    requires
        call_ensures(InMemoryAffinityStore::reap_expired, (store, now), ()),
    ensures
        sweeps(old(store).state(), final(store).state(), now),
{
    lemma_sweep(old(store).state(), final(store).state(), now);
}

pub(crate) proof fn lemma_sweep(before: AffinityState, after: AffinityState, now: Instant)
    requires
        before.sweeps_to(after, now),
    ensures
        sweeps(before, after, now),
{
    let fresh = after.expired.skip(before.expired.len() as int);
    assert(after.expired.take(before.expired.len() as int) =~= after.expired.subrange(
        0,
        before.expired.len() as int,
    ));
    assert forall|i: int| #![trigger fresh[i]] 0 <= i < fresh.len() implies before.announcement_due(
        fresh[i],
        now,
    ) by {
        assert(fresh.contains(fresh[i]));
    }
    assert forall|i: int, j: int| #![trigger fresh[i], fresh[j]] 0 <= i < j
        < fresh.len() implies fresh[i].0 != fresh[j].0 by {
        assert(before.announcement_due(fresh[i], now));
        assert(before.announcement_due(fresh[j], now));
        assert(fresh[i] != fresh[j]);
    }
    assert forall|session: Seq<char>| #[trigger]
        before.entries.contains_key(session) && before.announces_expiry
            && before.entries[session].expires_at.nanos <= now.nanos
            && before.entries[session].kind == AffinityKind::EngineBacked implies exists|i: int|
        0 <= i < fresh.len() && (#[trigger] fresh[i]).0 == session by {
        let notice = (session, before.entries[session].worker.worker_id);
        assert(before.announcement_due(notice, now));
        assert(fresh.contains(notice));
    }
}

/// Taking the announcements hands over each one once, in order, and changes
/// nothing else.
pub proof fn law_take_expired_result(
    router: &mut StickySessionRouter<InMemoryAffinityStore>,
    listed: Vec<(String, u64)>,
)
    requires
        call_ensures(
            StickySessionRouter::<InMemoryAffinityStore>::take_expired,
            (router,),
            listed,
        ),
    ensures
        listed@.len() == old(router).state().store.expired.len(),
        forall|i: int|
            #![trigger listed@[i]]
            0 <= i < listed@.len() ==> (listed@[i].0@, listed@[i].1) == old(
                router,
            ).state().store.expired[i],
        final(router).state().store.expired.len() == 0,
        final(router).state().store.entries == old(router).state().store.entries,
        differ_in_store_only(old(router).state(), final(router).state()),
{
    let notices = crate::sticky::router::notices(listed@);
    assert forall|i: int| #![trigger listed@[i]] 0 <= i < listed@.len() implies (
        listed@[i].0@,
        listed@[i].1,
    ) == old(router).state().store.expired[i] by {
        assert(notices[i] == (listed@[i].0@, listed@[i].1));
    }
}

/// What a sweep of a router leaves, at every moment and as of one that the clock
/// shows.
pub proof fn law_router_reap_results(
    router: &mut StickySessionRouter<InMemoryAffinityStore>,
    now: Instant,
    clocked: &mut StickySessionRouter<InMemoryAffinityStore>,
)
    requires
        call_ensures(
            StickySessionRouter::<InMemoryAffinityStore>::reap_expired_at,
            (router, now),
            (),
        ),
        call_ensures(
            StickySessionRouter::<InMemoryAffinityStore>::reap_expired,
            (clocked,),
            (),
        ),
    ensures
        sweeps(old(router).state().store, final(router).state().store, now),
        differ_in_store_only(old(router).state(), final(router).state()),
        exists|at: Instant| #[trigger]
            old(clocked).shows(at) && sweeps(
                old(clocked).state().store,
                final(clocked).state().store,
                at,
            ),
        differ_in_store_only(old(clocked).state(), final(clocked).state()),
{
    lemma_sweep(old(router).state().store, final(router).state().store, now);
    let at = choose|at: Instant| #[trigger]
        old(clocked).shows(at) && at.in_range() && old(clocked).state().store.sweeps_to(
            final(clocked).state().store,
            at,
        );
    lemma_sweep(old(clocked).state().store, final(clocked).state().store, at);
}

/// A new store is empty, and announces expired sessions exactly if it was told to.
pub proof fn law_new_store_results(
    quiet: InMemoryAffinityStore,
    on_expire: bool,
    told: InMemoryAffinityStore,
)
    requires
        call_ensures(InMemoryAffinityStore::new, (), quiet),
        call_ensures(InMemoryAffinityStore::new_with_on_expire, (on_expire,), told),
    ensures
        forall|session: Seq<char>| !quiet.state().entries.contains_key(session),
        quiet.state().expired.len() == 0,
        !quiet.state().announces_expiry,
        quiet.state().atomic_rebind,
        forall|session: Seq<char>| !told.state().entries.contains_key(session),
        told.state().expired.len() == 0,
        told.state().announces_expiry == on_expire,
        told.state().atomic_rebind,
{
}

/// An expired binding that was read before is removed, and announced if the engine
/// holds the session, exactly if it is still the stored one by rank and deadline and
/// its deadline has passed; a binding that replaced it stays.
pub proof fn law_remove_expired_result(
    store: &mut InMemoryAffinityStore,
    session_id: &str,
    binding: AffinityBinding,
    expires_at: Instant,
    now: Instant,
)
    requires
        call_ensures(
            InMemoryAffinityStore::remove_expired_if_current,
            (store, session_id, binding, expires_at, now),
            (),
        ),
    ensures
        ({
            let before = old(store).state();
            let after = final(store).state();
            let entry = before.entries[session_id@];
            let current = before.entries.contains_key(session_id@) && entry.worker
                == binding.worker && entry.expires_at == expires_at && expires_at.nanos
                <= now.nanos;
            &&& !current ==> after == before
            &&& current ==> {
                &&& !after.entries.contains_key(session_id@)
                &&& differ_in_binding_only(
                    before,
                    (AffinityState { expired: before.expired, ..after }),
                    session_id@,
                )
                &&& after.expired == if binding.kind == AffinityKind::EngineBacked
                    && before.announces_expiry {
                    before.expired.push((session_id@, binding.worker.worker_id))
                } else {
                    before.expired
                }
            }
        }),
{
}

} // verus!
