//! What holds of sticky routing as a whole.
//!
//! The laws are stated over the models that the contracts of the store and of
//! the router speak of.

use vstd::prelude::*;

use crate::protocols::{PreprocessedRequest, RequestPhase, SessionAction, WorkerWithDpRank};
use crate::sticky::coordinator;
use crate::sticky::coordinator::RoutedStep;
use crate::sticky::revisions;
use crate::sticky::router::{
    AffinityBindingToken, AffinityEntry, AffinityKind, AffinityRebindToken,
};
use crate::sticky::state::{AffinityState, CoordinatorState, RouterState};
use crate::time::{Duration, Instant};

verus! {

/// A bound session resolves to its `(worker, dp_rank)` until its time to live
/// has passed, and from then on to nothing.
pub proof fn law_bound_session_resolves_until_it_expires(
    state: AffinityState,
    session: Seq<char>,
    worker: WorkerWithDpRank,
    ttl: Duration,
    kind: AffinityKind,
    revision: u64,
    bound_at: Instant,
    later: Instant,
)
    requires
        bound_at.in_range(),
    ensures
        state.put(session, worker, ttl, kind, revision, bound_at).target(session, later) == if later.nanos
            < bound_at.nanos + ttl.total_nanos() {
            Some(worker)
        } else {
            None
        },
        later.nanos < bound_at.nanos + ttl.total_nanos() ==> state.put(
            session,
            worker,
            ttl,
            kind,
            revision,
            bound_at,
        ).visible(session, later) == Some(AffinityState::binding_token(worker, kind, revision)),
{
}

/// A session that was never bound resolves to nothing, and the lookup binds
/// nothing.
pub proof fn law_unknown_session_misses(state: AffinityState, session: Seq<char>, now: Instant)
    requires
        !state.entries.contains_key(session),
    ensures
        state.target(session, now) is None,
        state.visible(session, now) is None,
        state.rebindable(session, now) is None,
        state.refreshed(session, now) == state,
        state.peeked(session, now) == state,
        state.rebind_peeked(session, now) == state,
{
}

/// A bind overwrites target, time to live, kind and pending transition of the
/// binding before it.
pub proof fn law_bind_overwrites(
    state: AffinityState,
    session: Seq<char>,
    worker: WorkerWithDpRank,
    ttl: Duration,
    kind: AffinityKind,
    revision: u64,
    now: Instant,
)
    ensures
        state.put(session, worker, ttl, kind, revision, now).entries[session] == (AffinityEntry {
            worker,
            ttl,
            expires_at: now.spec_plus(ttl),
            kind,
            revision,
            pending_rebind: None,
        }),
{
}

/// A lookup that hits starts the time to live anew: the session then resolves
/// for as long again, counted from the lookup.
pub proof fn law_resolve_restarts_the_time_to_live(
    state: AffinityState,
    session: Seq<char>,
    now: Instant,
    later: Instant,
)
    requires
        now.in_range(),
        state.bound(session, now),
    ensures
        ({
            let ttl = state.entries[session].ttl;
            state.refreshed(session, now).target(session, later) == if later.nanos < now.nanos
                + ttl.total_nanos() {
                state.target(session, now)
            } else {
                None
            }
        }),
{
}

/// A peek that hits changes nothing, so affinity ends when it would have ended
/// without the peek.
pub proof fn law_peek_leaves_a_live_session_alone(
    state: AffinityState,
    session: Seq<char>,
    now: Instant,
)
    requires
        state.bound(session, now),
    ensures
        state.peeked(session, now) == state,
        state.rebind_peeked(session, now) == state,
{
}

/// A lookup that meets an expired binding answers nothing and removes it. The
/// session is announced once if the engine holds it and the store announces,
/// and not at all otherwise; a second lookup announces nothing more.
pub proof fn law_expired_session_is_removed_and_announced_once(
    state: AffinityState,
    session: Seq<char>,
    now: Instant,
)
    requires
        state.lapsed(session, now),
    ensures
        ({
            let after = state.refreshed(session, now);
            let entry = state.entries[session];
            &&& after == state.peeked(session, now)
            &&& state.target(session, now) is None
            &&& !after.entries.contains_key(session)
            &&& after.expired == if state.announces_expiry && entry.kind
                == AffinityKind::EngineBacked {
                state.expired.push((session, entry.worker.worker_id))
            } else {
                state.expired
            }
            &&& after.refreshed(session, now) == after
            &&& after.peeked(session, now) == after
        }),
{
}

/// A sweep removes exactly the expired bindings, and only the engine-backed
/// ones among them are announced.
pub proof fn law_sweep_keeps_exactly_the_live_sessions(
    state: AffinityState,
    swept: AffinityState,
    session: Seq<char>,
    now: Instant,
)
    requires
        state.sweeps_to(swept, now),
    ensures
        swept.entries.contains_key(session) <==> state.bound(session, now),
        state.bound(session, now) ==> swept.entries[session] == state.entries[session],
        swept.target(session, now) == state.target(session, now),
        forall|worker_id: u64| #[trigger]
            swept.expired.skip(state.expired.len() as int).contains((session, worker_id))
                ==> state.announces_expiry && state.entries[session].kind
                == AffinityKind::EngineBacked && state.entries[session].worker.worker_id
                == worker_id,
{
    assert forall|worker_id: u64| #[trigger]
        swept.expired.skip(state.expired.len() as int).contains((session, worker_id)) implies
        state.announces_expiry && state.entries[session].kind == AffinityKind::EngineBacked
        && state.entries[session].worker.worker_id == worker_id by {
        assert(state.announcement_due((session, worker_id), now));
    }
}

/// While a shadow transition is pending, every lookup answers what it answered
/// before, and no second transition can start.
pub proof fn law_shadow_transition_stays_hidden(
    state: AffinityState,
    session: Seq<char>,
    expected: AffinityBindingToken,
    cold: WorkerWithDpRank,
    ttl: Duration,
    revision: u64,
    now: Instant,
    later: Instant,
    other: AffinityBindingToken,
)
    ensures
        ({
            let begun = state.begun(session, expected, cold, ttl, revision, now);
            &&& begun.visible(session, later) == state.visible(session, later)
            &&& begun.target(session, later) == state.target(session, later)
            &&& state.can_begin(session, expected, now) ==> !begun.can_begin(session, other, later)
        }),
{
}

/// Committing a transition that is still current publishes the cold target
/// under the pending revision, keeps the kind of the binding, starts the time
/// to live of the transition and leaves nothing pending.
pub proof fn law_commit_publishes_the_cold_target(
    state: AffinityState,
    session: Seq<char>,
    expected: AffinityBindingToken,
    cold: WorkerWithDpRank,
    ttl: Duration,
    revision: u64,
    begun_at: Instant,
    committed_at: Instant,
    later: Instant,
)
    requires
        committed_at.in_range(),
        state.can_begin(session, expected, begun_at),
        state.bound(session, committed_at),
    ensures
        ({
            let token = AffinityState::rebind_token(expected, cold, revision);
            let begun = state.begun(session, expected, cold, ttl, revision, begun_at);
            let committed = begun.committed(session, token, committed_at);
            &&& begun.can_commit(session, token, committed_at)
            &&& committed.entries[session].spec_token() == token.pending
            &&& token.pending.binding.kind == expected.binding.kind
            &&& committed.entries[session].pending_rebind is None
            &&& committed.target(session, later) == if later.nanos < committed_at.nanos
                + ttl.total_nanos() {
                Some(cold)
            } else {
                None
            }
        }),
{
}

/// Rolling back a transition undoes its start: the store is as before, and the
/// session can be rebound as before.
pub proof fn law_rollback_undoes_the_start(
    state: AffinityState,
    session: Seq<char>,
    expected: AffinityBindingToken,
    cold: WorkerWithDpRank,
    ttl: Duration,
    revision: u64,
    now: Instant,
)
    requires
        state.can_begin(session, expected, now),
    ensures
        ({
            let token = AffinityState::rebind_token(expected, cold, revision);
            let begun = state.begun(session, expected, cold, ttl, revision, now);
            let rolled = begun.rolled_back(session, token);
            &&& begun.can_roll_back(session, token)
            &&& rolled == state
            &&& rolled.can_begin(session, expected, now)
        }),
{
    let token = AffinityState::rebind_token(expected, cold, revision);
    let begun = state.begun(session, expected, cold, ttl, revision, now);
    let rolled = begun.rolled_back(session, token);
    assert(rolled.entries[session] == state.entries[session]);
    assert(rolled.entries =~= state.entries);
}

/// A transition settles once: neither commit nor rollback finds it again.
pub proof fn law_transition_settles_once(
    state: AffinityState,
    session: Seq<char>,
    token: AffinityRebindToken,
    now: Instant,
    later: Instant,
)
    ensures
        state.can_roll_back(session, token) ==> {
            let rolled = state.rolled_back(session, token);
            &&& !rolled.can_commit(session, token, later)
            &&& !rolled.can_roll_back(session, token)
        },
        state.can_commit(session, token, now) ==> {
            let committed = state.committed(session, token, now);
            &&& !committed.can_commit(session, token, later)
            &&& !committed.can_roll_back(session, token)
        },
{
}

/// A token that is no longer the visible binding starts no transition: a rebind
/// decided on it is refused and changes nothing.
pub proof fn law_stale_token_starts_nothing(
    state: AffinityState,
    session: Seq<char>,
    stale: AffinityBindingToken,
    cold: WorkerWithDpRank,
    ttl: Duration,
    revision: u64,
    now: Instant,
)
    requires
        state.visible(session, now) != Some(stale),
    ensures
        !state.can_begin(session, stale, now),
        state.begun(session, stale, cold, ttl, revision, now) == state,
{
}

/// A binding that was removed after a rebind was decided is not brought back:
/// neither the start nor the end of the transition does anything.
pub proof fn law_removal_wins_over_a_transition(
    state: AffinityState,
    session: Seq<char>,
    expected: AffinityBindingToken,
    cold: WorkerWithDpRank,
    ttl: Duration,
    token: AffinityRebindToken,
    revision: u64,
    now: Instant,
)
    ensures
        ({
            let removed = state.removed(session);
            &&& removed.target(session, now) is None
            &&& !removed.can_begin(session, expected, now)
            &&& removed.begun(session, expected, cold, ttl, revision, now) == removed
            &&& !removed.can_commit(session, token, now)
            &&& removed.committed(session, token, now) == removed
            &&& !removed.can_roll_back(session, token)
            &&& removed.rolled_back(session, token) == removed
        }),
{
}

/// A bind that comes in between wins over a pending transition: neither commit
/// nor rollback changes the newer binding.
pub proof fn law_newer_bind_wins_over_a_transition(
    state: AffinityState,
    session: Seq<char>,
    token: AffinityRebindToken,
    worker: WorkerWithDpRank,
    ttl: Duration,
    kind: AffinityKind,
    revision: u64,
    bound_at: Instant,
    now: Instant,
)
    ensures
        ({
            let bound = state.put(session, worker, ttl, kind, revision, bound_at);
            &&& !bound.can_commit(session, token, now)
            &&& bound.committed(session, token, now) == bound
            &&& !bound.can_roll_back(session, token)
            &&& bound.rolled_back(session, token) == bound
        }),
{
}

/// The token of a transition that a newer bind has overtaken does not settle a
/// later transition of the session either.
pub proof fn law_overtaken_token_settles_no_later_transition(
    state: AffinityState,
    session: Seq<char>,
    token: AffinityRebindToken,
    worker: WorkerWithDpRank,
    ttl: Duration,
    kind: AffinityKind,
    revision: u64,
    later_revision: u64,
    bound_at: Instant,
    expected: AffinityBindingToken,
    cold: WorkerWithDpRank,
    begun_at: Instant,
    now: Instant,
)
    requires
        token.previous.revision < revision,
    ensures
        ({
            let bound = state.put(session, worker, ttl, kind, revision, bound_at);
            let begun = bound.begun(session, expected, cold, ttl, later_revision, begun_at);
            &&& !begun.can_commit(session, token, now)
            &&& !begun.can_roll_back(session, token)
        }),
{
}

/// Undoing a bind by its token removes that binding.
pub proof fn law_token_removes_its_own_binding(
    state: AffinityState,
    session: Seq<char>,
    worker: WorkerWithDpRank,
    ttl: Duration,
    kind: AffinityKind,
    revision: u64,
    now: Instant,
)
    ensures
        ({
            let bound = state.put(session, worker, ttl, kind, revision, now);
            let token = AffinityState::binding_token(worker, kind, revision);
            &&& bound.holds(session, token)
            &&& !bound.removed_if(session, token).entries.contains_key(session)
        }),
{
}

/// Undoing a bind by its token leaves a newer binding of the session alone,
/// even one with the same target.
pub proof fn law_token_spares_a_newer_binding(
    state: AffinityState,
    session: Seq<char>,
    token: AffinityBindingToken,
    worker: WorkerWithDpRank,
    ttl: Duration,
    kind: AffinityKind,
    revision: u64,
    now: Instant,
)
    requires
        token.revision < revision,
    ensures
        ({
            let bound = state.put(session, worker, ttl, kind, revision, now);
            &&& !bound.holds(session, token)
            &&& bound.removed_if(session, token) == bound
        }),
{
}

/// No operation on one session touches another one.
pub proof fn law_other_sessions_are_untouched(
    state: AffinityState,
    session: Seq<char>,
    other: Seq<char>,
    worker: WorkerWithDpRank,
    ttl: Duration,
    kind: AffinityKind,
    expected: AffinityBindingToken,
    token: AffinityRebindToken,
    revision: u64,
    now: Instant,
)
    requires
        session != other,
    ensures
        same_binding(state, state.refreshed(session, now), other),
        same_binding(state, state.peeked(session, now), other),
        same_binding(state, state.rebind_peeked(session, now), other),
        same_binding(state, state.put(session, worker, ttl, kind, revision, now), other),
        same_binding(state, state.removed(session), other),
        same_binding(state, state.removed_if(session, expected), other),
        same_binding(state, state.begun(session, expected, worker, ttl, revision, now), other),
        same_binding(state, state.committed(session, token, now), other),
        same_binding(state, state.rolled_back(session, token), other),
{
}

/// Both states hold the same for the session.
pub open spec fn same_binding(
    before: AffinityState,
    after: AffinityState,
    session: Seq<char>,
) -> bool {
    &&& before.entries.contains_key(session) == after.entries.contains_key(session)
    &&& before.entries.contains_key(session) ==> before.entries[session] == after.entries[session]
}

/// Every operation of a store keeps all its revisions below the counter, a
/// pending revision above the visible one, and the kind of a pending binding
/// that of the visible one. This holds of an empty store, however far the
/// counter has come, and as long as the counter does not wrap around. An entry
/// that is put back as it is keeps it if its own revisions do.
pub proof fn law_revisions_stay_below_the_counter(
    state: AffinityState,
    swept: AffinityState,
    session: Seq<char>,
    worker: WorkerWithDpRank,
    ttl: Duration,
    kind: AffinityKind,
    expected: AffinityBindingToken,
    token: AffinityRebindToken,
    restored: AffinityEntry,
    next: u64,
    now: Instant,
    announces: bool,
)
    requires
        state.revisions_below(next),
        next < u64::MAX,
        state.sweeps_to(swept, now),
        (AffinityState { entries: map![session => restored], ..state }).revisions_below(next),
    ensures
        AffinityState::empty(announces).revisions_below(next),
        state.refreshed(session, now).revisions_below(next),
        state.peeked(session, now).revisions_below(next),
        state.rebind_peeked(session, now).revisions_below(next),
        state.put(session, worker, ttl, kind, next, now).revisions_below(
            revisions::revision_after(next),
        ),
        state.removed(session).revisions_below(next),
        state.removed_if(session, expected).revisions_below(next),
        state.begun(session, expected, worker, ttl, next, now).revisions_below(
            revisions::revision_after(next),
        ),
        state.committed(session, token, now).revisions_below(next),
        state.rolled_back(session, token).revisions_below(next),
        swept.revisions_below(next),
        state.with_entry(session, restored).revisions_below(next),
        state.revisions_below(revisions::revision_after(next)),
{
    assert((AffinityState { entries: map![session => restored], ..state }).entries.contains_key(
        session,
    ));
}

/// A binding is not taken for one that was made earlier, whichever stores of the
/// process hold the two: their tokens differ, even for the same session and
/// target, and neither store removes its binding by the other one's token. The
/// counter gives a later binding a greater revision until it wraps around.
pub proof fn law_tokens_of_two_stores_differ(
    one: AffinityState,
    other: AffinityState,
    session: Seq<char>,
    worker: WorkerWithDpRank,
    ttl: Duration,
    kind: AffinityKind,
    earlier: u64,
    later: u64,
    now: Instant,
)
    requires
        earlier < later,
    ensures
        ({
            let first = AffinityState::binding_token(worker, kind, earlier);
            let second = AffinityState::binding_token(worker, kind, later);
            let one = one.put(session, worker, ttl, kind, earlier, now);
            let other = other.put(session, worker, ttl, kind, later, now);
            &&& first != second
            &&& one.holds(session, first)
            &&& other.holds(session, second)
            &&& one.removed_if(session, second) == one
            &&& other.removed_if(session, first) == other
        }),
        later < u64::MAX ==> later < revisions::revision_after(later),
{
}

/// A store without atomic transitions never moves a session: no lookup offers a
/// token for a rebind, and every attempt to start, publish or discard a
/// transition is refused and changes nothing.
pub proof fn law_store_without_transitions_moves_nothing(
    state: AffinityState,
    session: Seq<char>,
    expected: AffinityBindingToken,
    cold: WorkerWithDpRank,
    ttl: Duration,
    token: AffinityRebindToken,
    revision: u64,
    now: Instant,
)
    requires
        !state.atomic_rebind,
    ensures
        state.rebindable(session, now) is None,
        state.rebind_peeked(session, now) == state,
        !state.can_begin(session, expected, now),
        state.begun(session, expected, cold, ttl, revision, now) == state,
        !state.can_commit(session, token, now),
        state.committed(session, token, now) == state,
        !state.can_roll_back(session, token),
        state.rolled_back(session, token) == state,
{
}

/// An engine-backed session never leaves its worker by a rebind: the start is
/// refused and changes nothing.
pub proof fn law_engine_backed_session_keeps_its_worker(
    state: RouterState,
    session: Seq<char>,
    expected: AffinityBindingToken,
    cold: WorkerWithDpRank,
    ttl: Duration,
    revision: u64,
    now: Instant,
)
    requires
        expected.binding.kind == AffinityKind::EngineBacked,
        expected.binding.worker.worker_id != cold.worker_id,
    ensures
        !state.can_begin(session, expected, cold, now),
        state.begun(session, expected, cold, ttl, revision, now) == state,
{
}

/// A commit that succeeds counts one rebind and stamps the session, which is
/// then under cooldown until the cooldown has passed; one that fails changes
/// nothing.
pub proof fn law_commit_counts_and_cools(
    state: RouterState,
    session: Seq<char>,
    token: AffinityRebindToken,
    now: Instant,
    later: Instant,
    cooldown: Duration,
)
    requires
        state.rebinds(session) < u32::MAX,
        later.nanos >= now.nanos,
    ensures
        ({
            let after = state.committed(session, token, now);
            if state.store.can_commit(session, token, now) {
                &&& after.rebinds(session) == state.rebinds(session) + 1
                &&& after.cooling(session, cooldown, later) == (later.nanos < now.nanos
                    + cooldown.total_nanos())
            } else {
                after == state
            }
        }),
{
}

/// A rollback counts no rebind. A session that was rebound before is under
/// cooldown from the rollback on; one that never was is under none.
pub proof fn law_rollback_counts_nothing(
    state: RouterState,
    session: Seq<char>,
    token: AffinityRebindToken,
    now: Instant,
    later: Instant,
    cooldown: Duration,
)
    requires
        later.nanos >= now.nanos,
    ensures
        ({
            let after = state.rolled_back(session, token, now);
            &&& after.rebinds(session) == state.rebinds(session)
            &&& after.cooling(session, cooldown, later) == (state.last_rebind.contains_key(session)
                && later.nanos < now.nanos + cooldown.total_nanos())
        }),
{
}

/// The start of a transition neither counts nor stamps anything.
pub proof fn law_start_counts_nothing(
    state: RouterState,
    session: Seq<char>,
    expected: AffinityBindingToken,
    cold: WorkerWithDpRank,
    ttl: Duration,
    revision: u64,
    now: Instant,
)
    ensures
        state.begun(session, expected, cold, ttl, revision, now).rebind_counts == state.rebind_counts,
        state.begun(session, expected, cold, ttl, revision, now).last_rebind == state.last_rebind,
{
}

/// The turn of a session has one owner: the request it was given to holds it
/// until it gives it back, and no other request can give it back.
pub proof fn law_turn_has_one_owner(
    state: CoordinatorState,
    session: Seq<char>,
    owner: Seq<char>,
    other: Seq<char>,
)
    requires
        !state.turns.contains_key(session),
        owner != other,
    ensures
        ({
            let taken = state.turn_taken(session, owner);
            &&& taken.turns.contains_key(session)
            &&& taken.turns[session] == owner
            &&& taken.turn_released(session, other) == taken
            &&& taken.turn_released(session, owner) == state
        }),
{
    let taken = state.turn_taken(session, owner);
    assert(taken.turn_released(session, owner).turns =~= state.turns);
}

/// Turns do not touch bindings.
pub proof fn law_turns_leave_bindings_alone(
    state: CoordinatorState,
    session: Seq<char>,
    owner: Seq<char>,
)
    ensures
        state.turn_taken(session, owner).router == state.router,
        state.turn_released(session, owner).router == state.router,
{
}

/// Sticky target selection, turn serialization and lifecycle speak of the same
/// session, and a lifecycle action reaches its session whatever the request
/// pins.
pub proof fn law_session_gates_agree(request: PreprocessedRequest, phase: RequestPhase)
    ensures
        coordinator::sticky_session(request, phase) is Some ==> coordinator::sticky_session(
            request,
            phase,
        ) == coordinator::turn_session(request),
        coordinator::binding_session(request, phase) is Some ==> coordinator::binding_session(
            request,
            phase,
        ) == coordinator::turn_session(request),
        request.spec_has_action() ==> coordinator::binding_session(request, phase)
            == coordinator::turn_session(request) && coordinator::turn_session(request) is Some,
        coordinator::turn_session(request) is None ==> coordinator::sticky_session(
            request,
            phase,
        ) is None && coordinator::binding_session(request, phase) is None,
{
}

/// Rolling back a routed bind takes the binding away again.
pub proof fn law_routed_bind_can_be_undone(
    before: CoordinatorState,
    request: PreprocessedRequest,
    worker: WorkerWithDpRank,
    revision: u64,
    now: Instant,
    later: Instant,
    step: RoutedStep,
    after: CoordinatorState,
)
    requires
        coordinator::routes(before, request, worker, revision, now, step, after),
        request.spec_has_action(),
        request.spec_session_control()->0.action == Some(SessionAction::Bind),
    ensures
        ({
            let rollback = step->Done_0.rollback->0;
            let undone = after.router.store.removed_if(rollback.session(), rollback.token());
            &&& after.router.store.holds(rollback.session(), rollback.token())
            &&& undone.target(request.spec_session_control()->0.session_id@, later) is None
        }),
{
}

/// A session is not bound before its worker has opened it, and once opened it
/// is bound to that worker for its timeout.
pub proof fn law_open_binds_only_what_the_worker_opened(
    before: CoordinatorState,
    open: coordinator::SessionOpen,
    opened: bool,
    revision: u64,
    now: Instant,
    later: Instant,
    step: RoutedStep,
    after: CoordinatorState,
)
    requires
        now.in_range(),
        coordinator::opens(before, open, opened, revision, now, step, after),
    ensures
        !opened ==> after == before,
        opened ==> after.router.store.target(open.session_id@, later) == if later.nanos < now.nanos
            + Duration::spec_from_secs(open.timeout).total_nanos() {
            Some(open.worker)
        } else {
            None
        },
{
}

/// After a routed close the session is bound to nothing.
pub proof fn law_close_ends_affinity(
    before: CoordinatorState,
    request: PreprocessedRequest,
    worker: WorkerWithDpRank,
    revision: u64,
    now: Instant,
    later: Instant,
    step: RoutedStep,
    after: CoordinatorState,
)
    requires
        coordinator::routes(before, request, worker, revision, now, step, after),
        request.spec_has_action(),
        request.spec_session_control()->0.action == Some(SessionAction::Close),
    ensures
        after.router.store.target(request.spec_session_control()->0.session_id@, later) is None,
{
}

/// Giving up a shadow rebind restores the store: only a running cooldown differs
/// from before the rebind.
pub proof fn law_abandoned_rebind_restores_bindings(
    state: CoordinatorState,
    session: Seq<char>,
    expected: AffinityBindingToken,
    cold: WorkerWithDpRank,
    ttl: Duration,
    revision: u64,
    begun_at: Instant,
    now: Instant,
)
    requires
        state.router.can_begin(session, expected, cold, begun_at),
    ensures
        ({
            let token = AffinityState::rebind_token(expected, cold, revision);
            let begun = state.with_router(
                state.router.begun(session, expected, cold, ttl, revision, begun_at),
            );
            let after = begun.abandoned(session, token, now);
            &&& after.router.store == state.router.store
            &&& after.router.rebind_counts == state.router.rebind_counts
            &&& after.turns == state.turns
        }),
{
    law_rollback_undoes_the_start(
        state.router.store,
        session,
        expected,
        cold,
        ttl,
        revision,
        begun_at,
    );
}

/// A guard that is dropped without a commit, or after a commit that was refused,
/// publishes nothing, whatever happened since its rebind began: no lookup of any
/// session changes. If its shadow is still there it goes, and the session can be
/// rebound while it is bound; if the session was bound anew or removed, the store
/// is untouched.
pub proof fn law_dropped_guard_publishes_nothing(
    state: CoordinatorState,
    session: Seq<char>,
    token: AffinityRebindToken,
    now: Instant,
    other: Seq<char>,
    later: Instant,
)
    ensures
        ({
            let before = state.router.store;
            let after = state.abandoned(session, token, now).router.store;
            &&& after.visible(other, later) == before.visible(other, later)
            &&& before.can_roll_back(session, token) && before.bound(session, later)
                ==> after.rebindable(session, later) == Some(token.previous)
            &&& !before.can_roll_back(session, token) ==> after == before
            &&& !before.can_commit(session, token, now) ==> state.settled(session, token, now)
                == state.abandoned(session, token, now)
        }),
{
}

/// After a commit that succeeded, a guard has nothing left to undo: the cold
/// target is bound, and giving the transition up does not touch the store.
pub proof fn law_committed_guard_has_nothing_to_undo(
    state: CoordinatorState,
    session: Seq<char>,
    token: AffinityRebindToken,
    now: Instant,
    later: Instant,
)
    requires
        state.router.store.can_commit(session, token, now),
    ensures
        ({
            let committed = state.settled(session, token, now);
            &&& committed.router.store.entries[session].spec_token() == token.pending
            &&& committed.abandoned(session, token, later).router.store == committed.router.store
        }),
{
}

} // verus!
