//! What the operations of the session coordinator give back.
//!
//! Each law takes one call of an operation, or several in a row, and relates what
//! came out to the fields of the request and to the entries of the store.

use vstd::prelude::*;

use crate::protocols::{
    PreprocessedRequest, RequestPhase, RoutingHints, SessionAction, SessionControl,
    WorkerWithDpRank,
};
use crate::sticky::coordinator;
use crate::sticky::coordinator::{
    RoutedStep, SessionCloseAction, SessionCloseProbe, SessionOpen, SessionRebindGuard,
    SessionRoutingResult, SessionRoutingRollback, SessionTurnGuard, StickySessionCoordinator,
    TurnAcquisition,
};
use crate::sticky::results;
use crate::sticky::revisions::AffinityRevisions;
use crate::sticky::router::{
    AffinityBinding, AffinityBindingToken, AffinityKind, AffinityRebindToken,
};
use crate::sticky::state::CoordinatorState;
use crate::time::{Duration, Instant};

verus! {

/// The request is part of a session.
pub open spec fn in_session(request: PreprocessedRequest) -> bool {
    request.routing is Some && request.routing->0.session_control is Some
}

/// The session control of a request that is part of a session.
pub open spec fn control(request: PreprocessedRequest) -> SessionControl {
    request.routing->0.session_control->0
}

/// The session of a request that is part of one.
pub open spec fn session_of(request: PreprocessedRequest) -> Seq<char> {
    control(request).session_id@
}

/// The request carries a lifecycle action.
pub open spec fn acts(request: PreprocessedRequest) -> bool {
    in_session(request) && control(request).action is Some
}

/// The hints name the target of this phase themselves.
pub open spec fn names_target(hints: RoutingHints, phase: RequestPhase) -> bool {
    ||| hints.backend_instance_id is Some
    ||| match phase {
        RequestPhase::Prefill => hints.prefill_worker_id is Some || hints.prefill_dp_rank is Some,
        RequestPhase::Decode => hints.decode_worker_id is Some || hints.dp_rank is Some,
        RequestPhase::Aggregated => hints.dp_rank is Some,
    }
}

/// The binding of its session decides where the request goes.
pub open spec fn sticks(request: PreprocessedRequest, phase: RequestPhase) -> bool {
    in_session(request) && !names_target(request.routing->0, phase)
}

/// The request belongs to the existing binding of its session.
pub open spec fn belongs(request: PreprocessedRequest, phase: RequestPhase) -> bool {
    acts(request) || sticks(request, phase)
}

/// The two coordinators agree on everything but their routers.
pub open spec fn differ_in_router_only(before: CoordinatorState, after: CoordinatorState) -> bool {
    after.turns == before.turns
}

/// Sticky routing applies exactly to requests of a session that do not name the
/// target of their phase; a turn is taken by every request of a session; and a
/// lifecycle action belongs to its session whatever it names.
pub proof fn law_session_ids(
    request: &PreprocessedRequest,
    phase: RequestPhase,
    allowed: bool,
    sticky: Option<&str>,
    turn: Option<&str>,
    binding: Option<&str>,
    by_coordinator: Option<&str>,
    coordinator: &StickySessionCoordinator,
)
    requires
        request.routing is Some,
        call_ensures(
            coordinator::sticky_allowed_for_phase,
            (phase, Some(&request.routing->0)),
            allowed,
        ),
        call_ensures(coordinator::sticky_session_id_for_phase, (request, phase), sticky),
        call_ensures(coordinator::turn_session_id_for_phase, (request, phase), turn),
        call_ensures(coordinator::binding_session_id_for_phase, (request, phase), binding),
        call_ensures(
            StickySessionCoordinator::session_id_for_phase,
            (coordinator, request, phase),
            by_coordinator,
        ),
    ensures
        allowed <==> request.routing->0.session_control is Some && !names_target(
            request.routing->0,
            phase,
        ),
        sticky is Some <==> sticks(*request, phase),
        sticky is Some ==> sticky->0@ == session_of(*request),
        by_coordinator is Some <==> sticks(*request, phase),
        by_coordinator is Some ==> by_coordinator->0@ == session_of(*request),
        turn is Some <==> in_session(*request),
        turn is Some ==> turn->0@ == session_of(*request),
        binding is Some <==> belongs(*request, phase),
        binding is Some ==> binding->0@ == session_of(*request),
{
}

/// A request without routing hints is part of no session.
pub proof fn law_no_session_ids_without_hints(
    request: &PreprocessedRequest,
    phase: RequestPhase,
    allowed: bool,
    sticky: Option<&str>,
    turn: Option<&str>,
    binding: Option<&str>,
)
    requires
        request.routing is None,
        call_ensures(coordinator::sticky_allowed_for_phase, (phase, None), allowed),
        call_ensures(coordinator::sticky_session_id_for_phase, (request, phase), sticky),
        call_ensures(coordinator::turn_session_id_for_phase, (request, phase), turn),
        call_ensures(coordinator::binding_session_id_for_phase, (request, phase), binding),
    ensures
        !allowed,
        sticky is None,
        turn is None,
        binding is None,
{
}

/// A turn is given to the first request of a session that asks and to no other
/// until it is given back; the others learn who has it.
pub proof fn law_acquire_turn_result(
    sticky: &mut StickySessionCoordinator,
    request: &PreprocessedRequest,
    phase: RequestPhase,
    owner: &str,
    turn: TurnAcquisition,
)
    requires
        call_ensures(
            StickySessionCoordinator::acquire_turn_for_phase,
            (sticky, request, phase, owner),
            turn,
        ),
    ensures
        turn is NotApplicable <==> !in_session(*request),
        turn is Owner <==> in_session(*request) && !old(sticky).state().turns.contains_key(
            session_of(*request),
        ),
        turn matches TurnAcquisition::Owner(guard) ==> {
            &&& guard.session() == session_of(*request)
            &&& guard.owner() == owner@
            &&& final(sticky).state().turns == old(sticky).state().turns.insert(
                session_of(*request),
                owner@,
            )
        },
        turn matches TurnAcquisition::Overlap { current_owner } ==> current_owner@ == old(
            sticky,
        ).state().turns[session_of(*request)],
        !(turn is Owner) ==> final(sticky).state().turns == old(sticky).state().turns,
        final(sticky).state().router == old(sticky).state().router,
{
}

/// A turn that is given back is free again, and no other turn or binding changes;
/// one that another request has by now stays with it.
pub proof fn law_release_turn_result(guard: SessionTurnGuard, sticky: &mut StickySessionCoordinator)
    requires
        call_ensures(SessionTurnGuard::release, (guard, sticky), ()),
    ensures
        final(sticky).state().router == old(sticky).state().router,
        forall|session: Seq<char>| #[trigger]
            final(sticky).state().turns.contains_key(session) <==> {
                &&& old(sticky).state().turns.contains_key(session)
                &&& !(session == guard.session() && old(sticky).state().turns[session]
                    == guard.owner())
            },
        forall|session: Seq<char>| #[trigger]
            final(sticky).state().turns.contains_key(session) ==> final(sticky).state().turns[session] == old(sticky).state().turns[session],
{
}

/// Taking a turn and giving it back leaves the coordinator as it was.
pub proof fn law_acquire_then_release(
    first: &mut StickySessionCoordinator,
    request: &PreprocessedRequest,
    phase: RequestPhase,
    owner: &str,
    guard: SessionTurnGuard,
    second: &mut StickySessionCoordinator,
)
    requires
        call_ensures(
            StickySessionCoordinator::acquire_turn_for_phase,
            (first, request, phase, owner),
            TurnAcquisition::Owner(guard),
        ),
        old(second).state() == final(first).state(),
        call_ensures(SessionTurnGuard::release, (guard, second), ()),
    ensures
        final(second).state() == old(first).state(),
{
    assert(final(second).state().turns =~= old(first).state().turns);
}

/// The worker of a request's phase is that of the live binding of the session that
/// the request belongs to, in every phase.
pub proof fn law_worker_for_phase_result(
    sticky: &mut StickySessionCoordinator,
    request: &PreprocessedRequest,
    phase: RequestPhase,
    now: Instant,
    worker: Option<WorkerWithDpRank>,
)
    requires
        call_ensures(
            StickySessionCoordinator::worker_for_phase_at,
            (sticky, request, phase, now),
            worker,
        ),
    ensures
        belongs(*request, phase) ==> results::peeks(
            old(sticky).state().router,
            final(sticky).state().router,
            session_of(*request),
            now,
            worker,
        ),
        !belongs(*request, phase) ==> worker is None && final(sticky).state() == old(
            sticky,
        ).state(),
        differ_in_router_only(old(sticky).state(), final(sticky).state()),
{
}

/// As of a moment that the clock shows.
pub proof fn law_clocked_worker_for_phase_result(
    sticky: &mut StickySessionCoordinator,
    request: &PreprocessedRequest,
    phase: RequestPhase,
    worker: Option<WorkerWithDpRank>,
)
    requires
        call_ensures(
            StickySessionCoordinator::worker_for_phase,
            (sticky, request, phase),
            worker,
        ),
    ensures
        belongs(*request, phase) ==> exists|now: Instant| #[trigger]
            old(sticky).shows(now) && results::peeks(
                old(sticky).state().router,
                final(sticky).state().router,
                session_of(*request),
                now,
                worker,
            ),
        !belongs(*request, phase) ==> worker is None && final(sticky).state() == old(
            sticky,
        ).state(),
        differ_in_router_only(old(sticky).state(), final(sticky).state()),
{
}

/// The binding token of a request's phase is that of the live binding of the
/// session that the request belongs to, and the read that changes nothing answers
/// the same.
pub proof fn law_binding_token_for_phase_result(
    sticky: &mut StickySessionCoordinator,
    same: &StickySessionCoordinator,
    request: &PreprocessedRequest,
    phase: RequestPhase,
    now: Instant,
    token: Option<AffinityBindingToken>,
    visible: Option<AffinityBindingToken>,
)
    requires
        same.state() == old(sticky).state(),
        call_ensures(
            StickySessionCoordinator::binding_token_for_phase_at,
            (sticky, request, phase, now),
            token,
        ),
        call_ensures(
            StickySessionCoordinator::visible_token_for_phase_at,
            (same, request, phase, now),
            visible,
        ),
    ensures
        belongs(*request, phase) ==> results::reads_token(
            old(sticky).state().router,
            final(sticky).state().router,
            session_of(*request),
            now,
            token,
        ),
        !belongs(*request, phase) ==> token is None && final(sticky).state() == old(
            sticky,
        ).state(),
        visible == token,
        differ_in_router_only(old(sticky).state(), final(sticky).state()),
{
}

/// As of a moment that the clock shows.
pub proof fn law_clocked_binding_token_for_phase_result(
    sticky: &mut StickySessionCoordinator,
    request: &PreprocessedRequest,
    phase: RequestPhase,
    token: Option<AffinityBindingToken>,
)
    requires
        call_ensures(
            StickySessionCoordinator::binding_token_for_phase,
            (sticky, request, phase),
            token,
        ),
    ensures
        belongs(*request, phase) ==> exists|now: Instant| #[trigger]
            old(sticky).shows(now) && results::reads_token(
                old(sticky).state().router,
                final(sticky).state().router,
                session_of(*request),
                now,
                token,
            ),
        !belongs(*request, phase) ==> token is None && final(sticky).state() == old(
            sticky,
        ).state(),
        differ_in_router_only(old(sticky).state(), final(sticky).state()),
{
}

/// A token for a rebind is to be had only of a session that decides where the
/// request goes.
pub proof fn law_rebind_token_for_phase_result(
    sticky: &mut StickySessionCoordinator,
    request: &PreprocessedRequest,
    phase: RequestPhase,
    now: Instant,
    token: Option<AffinityBindingToken>,
)
    requires
        call_ensures(
            StickySessionCoordinator::rebind_token_for_phase_at,
            (sticky, request, phase, now),
            token,
        ),
    ensures
        sticks(*request, phase) ==> results::reads_rebind_token(
            old(sticky).state().router,
            final(sticky).state().router,
            session_of(*request),
            now,
            token,
        ),
        !sticks(*request, phase) ==> token is None && final(sticky).state() == old(sticky).state(),
        differ_in_router_only(old(sticky).state(), final(sticky).state()),
{
}

/// As of a moment that the clock shows.
pub proof fn law_clocked_rebind_token_for_phase_result(
    sticky: &mut StickySessionCoordinator,
    request: &PreprocessedRequest,
    phase: RequestPhase,
    token: Option<AffinityBindingToken>,
)
    requires
        call_ensures(
            StickySessionCoordinator::rebind_token_for_phase,
            (sticky, request, phase),
            token,
        ),
    ensures
        sticks(*request, phase) ==> exists|now: Instant| #[trigger]
            old(sticky).shows(now) && results::reads_rebind_token(
                old(sticky).state().router,
                final(sticky).state().router,
                session_of(*request),
                now,
                token,
            ),
        !sticks(*request, phase) ==> token is None && final(sticky).state() == old(sticky).state(),
        differ_in_router_only(old(sticky).state(), final(sticky).state()),
{
}

/// The coordinator begins a rebind as its router does, and the guard is for that
/// session and that transition.
pub proof fn law_coordinator_begin_rebind_result(
    sticky: &mut StickySessionCoordinator,
    session_id: &str,
    expected: AffinityBindingToken,
    cold: WorkerWithDpRank,
    ttl: Duration,
    now: Instant,
    revisions: &mut AffinityRevisions,
    guard: Option<SessionRebindGuard>,
)
    requires
        call_ensures(
            StickySessionCoordinator::begin_rebind_at,
            (sticky, session_id, expected, cold, ttl, now, revisions),
            guard,
        ),
    ensures
        results::begins(
            old(sticky).state().router,
            final(sticky).state().router,
            session_id@,
            expected,
            cold,
            ttl,
            old(revisions).next(),
            final(revisions).next(),
            now,
            match guard {
                Some(pending) => Some(pending.token()),
                None => None,
            },
        ),
        guard is Some ==> guard->0.session() == session_id@,
        differ_in_router_only(old(sticky).state(), final(sticky).state()),
{
    coordinator::law_coordinator_moves_sessions(&*old(sticky));
}

/// As of a moment that the clock shows.
pub proof fn law_clocked_coordinator_begin_rebind_result(
    sticky: &mut StickySessionCoordinator,
    session_id: &str,
    expected: AffinityBindingToken,
    cold: WorkerWithDpRank,
    ttl: Duration,
    revisions: &mut AffinityRevisions,
    guard: Option<SessionRebindGuard>,
)
    requires
        call_ensures(
            StickySessionCoordinator::begin_rebind,
            (sticky, session_id, expected, cold, ttl, revisions),
            guard,
        ),
    ensures
        exists|now: Instant| #[trigger]
            old(sticky).shows(now) && results::begins(
                old(sticky).state().router,
                final(sticky).state().router,
                session_id@,
                expected,
                cold,
                ttl,
                old(revisions).next(),
                final(revisions).next(),
                now,
                match guard {
                    Some(pending) => Some(pending.token()),
                    None => None,
                },
            ),
        guard is Some ==> guard->0.session() == session_id@,
        differ_in_router_only(old(sticky).state(), final(sticky).state()),
{
}

/// Committing a guard commits its transition, and one that cannot be committed is
/// rolled back.
pub proof fn law_guard_commit_result(
    guard: SessionRebindGuard,
    sticky: &mut StickySessionCoordinator,
    now: Instant,
    committed: bool,
)
    requires
        now.in_range(),
        committed ==> old(sticky).state().router.rebinds(guard.session()) < u32::MAX,
        call_ensures(SessionRebindGuard::commit_at, (guard, sticky, now), committed),
    ensures
        committed ==> results::commits(
            old(sticky).state().router,
            final(sticky).state().router,
            guard.session(),
            guard.token(),
            now,
            true,
        ),
        !committed ==> results::commits(
            old(sticky).state().router,
            old(sticky).state().router,
            guard.session(),
            guard.token(),
            now,
            false,
        ) && exists|rolled: bool| #[trigger]
            results::rolls_back(
                old(sticky).state().router,
                final(sticky).state().router,
                guard.session(),
                guard.token(),
                now,
                rolled,
            ),
        differ_in_router_only(old(sticky).state(), final(sticky).state()),
{
    if !committed {
        assert(results::rolls_back(
            old(sticky).state().router,
            final(sticky).state().router,
            guard.session(),
            guard.token(),
            now,
            old(sticky).state().router.store.can_roll_back(guard.session(), guard.token()),
        ));
    }
}

/// Abandoning a guard rolls its transition back.
pub proof fn law_guard_abandon_result(
    guard: SessionRebindGuard,
    sticky: &mut StickySessionCoordinator,
    now: Instant,
)
    requires
        call_ensures(SessionRebindGuard::abandon_at, (guard, sticky, now), ()),
    ensures
        exists|rolled: bool| #[trigger]
            results::rolls_back(
                old(sticky).state().router,
                final(sticky).state().router,
                guard.session(),
                guard.token(),
                now,
                rolled,
            ),
        differ_in_router_only(old(sticky).state(), final(sticky).state()),
{
    assert(results::rolls_back(
        old(sticky).state().router,
        final(sticky).state().router,
        guard.session(),
        guard.token(),
        now,
        old(sticky).state().router.store.can_roll_back(guard.session(), guard.token()),
    ));
}

/// An ordinary turn whose session decides where it goes extends the session's
/// affinity; any other request leaves everything as it is.
pub proof fn law_refresh_result(
    sticky: &mut StickySessionCoordinator,
    request: &PreprocessedRequest,
    phase: RequestPhase,
    now: Instant,
)
    requires
        now.in_range(),
        call_ensures(
            StickySessionCoordinator::refresh_worker_for_phase_at,
            (sticky, request, phase, now),
            (),
        ),
    ensures
        sticks(*request, phase) && !acts(*request) ==> results::resolves(
            old(sticky).state().router,
            final(sticky).state().router,
            session_of(*request),
            now,
            if results::lives(old(sticky).state().router.store, session_of(*request), now) {
                Some(old(sticky).state().router.store.entries[session_of(*request)].worker)
            } else {
                None
            },
        ),
        !sticks(*request, phase) || acts(*request) ==> final(sticky).state() == old(
            sticky,
        ).state(),
        differ_in_router_only(old(sticky).state(), final(sticky).state()),
{
}

/// Unbinding for a request's phase removes the binding of the session that decides
/// where the request goes, and names the session.
pub proof fn law_unbind_for_phase_result(
    sticky: &mut StickySessionCoordinator,
    request: &PreprocessedRequest,
    phase: RequestPhase,
    unbound: Option<(&str, Option<AffinityBinding>)>,
)
    requires
        call_ensures(
            StickySessionCoordinator::unbind_for_phase,
            (sticky, request, phase),
            unbound,
        ),
    ensures
        unbound is Some <==> sticks(*request, phase),
        unbound matches Some((id, binding)) ==> id@ == session_of(*request) && results::unbinds(
            old(sticky).state().router,
            final(sticky).state().router,
            session_of(*request),
            binding,
        ),
        unbound is None ==> final(sticky).state() == old(sticky).state(),
        differ_in_router_only(old(sticky).state(), final(sticky).state()),
{
}

/// Unbinding by token removes exactly the binding that the token stands for, of
/// the session that the request belongs to; the test for the token says whether it
/// would.
pub proof fn law_unbind_if_token_for_phase_result(
    sticky: &mut StickySessionCoordinator,
    same: &StickySessionCoordinator,
    request: &PreprocessedRequest,
    phase: RequestPhase,
    token: AffinityBindingToken,
    removed: bool,
    held: bool,
)
    requires
        same.state() == old(sticky).state(),
        call_ensures(
            StickySessionCoordinator::unbind_if_token_for_phase,
            (sticky, request, phase, token),
            removed,
        ),
        call_ensures(
            StickySessionCoordinator::holds_token_for_phase,
            (same, request, phase, token),
            held,
        ),
    ensures
        belongs(*request, phase) ==> results::unbinds_if(
            old(sticky).state().router,
            final(sticky).state().router,
            session_of(*request),
            token,
            removed,
        ),
        !belongs(*request, phase) ==> !removed && final(sticky).state() == old(sticky).state(),
        held == removed,
        differ_in_router_only(old(sticky).state(), final(sticky).state()),
{
}

/// The coordinator's counts and cooldowns are those of its router.
pub proof fn law_coordinator_throttle_results(
    sticky: &StickySessionCoordinator,
    session_id: &str,
    cooldown: Duration,
    now: Instant,
    count: u32,
    cooling: bool,
)
    requires
        call_ensures(StickySessionCoordinator::rebind_count, (sticky, session_id), count),
        call_ensures(
            StickySessionCoordinator::in_rebind_cooldown_at,
            (sticky, session_id, cooldown, now),
            cooling,
        ),
    ensures
        count > 0 ==> sticky.state().router.rebind_counts.contains_key(session_id@),
        sticky.state().router.rebind_counts.contains_key(session_id@) ==> count
            == sticky.state().router.rebind_counts[session_id@],
        cooling <==> {
            let span = cooldown.secs * 1000000000 + cooldown.subsec_nanos;
            let stamp = sticky.state().router.last_rebind[session_id@];
            &&& sticky.state().router.last_rebind.contains_key(session_id@)
            &&& if stamp.nanos <= now.nanos {
                now.nanos < stamp.nanos + span
            } else {
                0 < span
            }
        },
{
}

/// The step asks for nothing more, closes nothing and has nothing to undo.
pub open spec fn is_over(step: RoutedStep) -> bool {
    &&& step is Done
    &&& step->Done_0.deferred_close is None
    &&& step->Done_0.rollback is None
}

/// What routing a request to `worker` does to its session, by the action that the
/// request carries: nothing without one; a bind puts the session on the worker for
/// exactly the timeout that the request asks for; an open is handed on and changes
/// nothing yet; a close removes the binding, and the worker that held it is asked,
/// or the one that the request went to if none was known.
pub open spec fn acts_out(
    before: CoordinatorState,
    after: CoordinatorState,
    request: PreprocessedRequest,
    worker: WorkerWithDpRank,
    next: u64,
    next_after: u64,
    now: Instant,
    step: RoutedStep,
) -> bool {
    let session = session_of(request);
    let stored = before.router.store.entries;
    &&& !acts(request) ==> is_over(step) && after == before && next_after == next
    &&& acts(request) && control(request).action->0 is Open ==> {
        &&& step is Open
        &&& step->Open_0.session_id@ == session
        &&& step->Open_0.timeout == control(request).timeout
        &&& step->Open_0.worker == worker
        &&& after == before
        &&& next_after == next
    }
    &&& acts(request) && control(request).action->0 is Bind ==> {
        &&& step is Done
        &&& step->Done_0.deferred_close is None
        &&& step->Done_0.rollback is Some
        &&& step->Done_0.rollback->0.session() == session
        &&& step->Done_0.rollback->0.closes() is None
        &&& results::puts(
            before.router,
            after.router,
            session,
            worker,
            Duration { secs: control(request).timeout, subsec_nanos: 0 },
            AffinityKind::RouterOnly,
            next,
            next_after,
            now,
            step->Done_0.rollback->0.token(),
        )
        &&& after.turns == before.turns
    }
    &&& acts(request) && control(request).action->0 is Close ==> {
        &&& !after.router.store.entries.contains_key(session)
        &&& results::differ_in_binding_only(before.router.store, after.router.store, session)
        &&& results::differ_in_store_only(before.router, after.router)
        &&& after.turns == before.turns
        &&& next_after == next
        &&& if stored.contains_key(session) && stored[session].kind == AffinityKind::RouterOnly {
            is_over(step)
        } else {
            &&& step is Probe
            &&& step->Probe_0.opened is None
            &&& step->Probe_0.close.session_id@ == session
            &&& step->Probe_0.close.worker_id == if stored.contains_key(session) {
                stored[session].worker.worker_id
            } else {
                worker.worker_id
            }
        }
    }
}

/// What `on_routed_at` does, for every moment.
pub proof fn law_on_routed_result(
    sticky: &mut StickySessionCoordinator,
    request: &PreprocessedRequest,
    worker: WorkerWithDpRank,
    now: Instant,
    revisions: &mut AffinityRevisions,
    step: RoutedStep,
)
    requires
        now.in_range(),
        call_ensures(
            StickySessionCoordinator::on_routed_at,
            (sticky, request, worker, now, revisions),
            step,
        ),
    ensures
        acts_out(
            old(sticky).state(),
            final(sticky).state(),
            *request,
            worker,
            old(revisions).next(),
            final(revisions).next(),
            now,
            step,
        ),
{
}

/// What `on_routed` does, as of a moment that the clock shows.
pub proof fn law_clocked_on_routed_result(
    sticky: &mut StickySessionCoordinator,
    request: &PreprocessedRequest,
    worker: WorkerWithDpRank,
    revisions: &mut AffinityRevisions,
    step: RoutedStep,
)
    requires
        call_ensures(
            StickySessionCoordinator::on_routed,
            (sticky, request, worker, revisions),
            step,
        ),
    ensures
        exists|now: Instant| #[trigger]
            old(sticky).shows(now) && acts_out(
                old(sticky).state(),
                final(sticky).state(),
                *request,
                worker,
                old(revisions).next(),
                final(revisions).next(),
                now,
                step,
            ),
{
}

/// A session that a request binds is found on the worker of the request exactly
/// until the timeout of the request has passed, counted in seconds from the bind.
pub proof fn law_routed_bind_lasts_its_timeout(
    first: &mut StickySessionCoordinator,
    request: &PreprocessedRequest,
    worker: WorkerWithDpRank,
    now: Instant,
    revisions: &mut AffinityRevisions,
    step: RoutedStep,
    second: &mut StickySessionCoordinator,
    turn: &PreprocessedRequest,
    phase: RequestPhase,
    later: Instant,
    found: Option<WorkerWithDpRank>,
)
    requires
        now.in_range(),
        acts(*request),
        control(*request).action == Some(SessionAction::Bind),
        call_ensures(
            StickySessionCoordinator::on_routed_at,
            (first, request, worker, now, revisions),
            step,
        ),
        old(second).state() == final(first).state(),
        belongs(*turn, phase),
        session_of(*turn) == session_of(*request),
        call_ensures(
            StickySessionCoordinator::worker_for_phase_at,
            (second, turn, phase, later),
            found,
        ),
    ensures
        later.nanos < now.nanos + control(*request).timeout * 1000000000 ==> found == Some(worker),
        later.nanos >= now.nanos + control(*request).timeout * 1000000000 ==> found is None,
{
}

/// What the answer to an open does: an opened session is put on its worker for the
/// timeout that was asked for, as one that the engine holds; one that was not
/// opened changes nothing.
pub open spec fn opens_out(
    before: CoordinatorState,
    after: CoordinatorState,
    open: SessionOpen,
    opened: bool,
    next: u64,
    next_after: u64,
    now: Instant,
    step: RoutedStep,
) -> bool {
    &&& !opened ==> is_over(step) && after == before && next_after == next
    &&& opened ==> {
        &&& step is Probe
        &&& step->Probe_0.close.session_id@ == open.session_id@
        &&& step->Probe_0.close.worker_id == open.worker.worker_id
        &&& step->Probe_0.opened is Some
        &&& results::puts(
            before.router,
            after.router,
            open.session_id@,
            open.worker,
            Duration { secs: open.timeout, subsec_nanos: 0 },
            AffinityKind::EngineBacked,
            next,
            next_after,
            now,
            step->Probe_0.opened->0,
        )
        &&& after.turns == before.turns
    }
}

/// What `on_session_opened_at` does, for every moment.
pub proof fn law_on_session_opened_result(
    sticky: &mut StickySessionCoordinator,
    open: SessionOpen,
    opened: bool,
    now: Instant,
    revisions: &mut AffinityRevisions,
    step: RoutedStep,
)
    requires
        now.in_range(),
        call_ensures(
            StickySessionCoordinator::on_session_opened_at,
            (sticky, open, opened, now, revisions),
            step,
        ),
    ensures
        opens_out(
            old(sticky).state(),
            final(sticky).state(),
            open,
            opened,
            old(revisions).next(),
            final(revisions).next(),
            now,
            step,
        ),
{
}

/// What `on_session_opened` does, as of a moment that the clock shows.
pub proof fn law_clocked_on_session_opened_result(
    sticky: &mut StickySessionCoordinator,
    open: SessionOpen,
    opened: bool,
    revisions: &mut AffinityRevisions,
    step: RoutedStep,
)
    requires
        call_ensures(
            StickySessionCoordinator::on_session_opened,
            (sticky, open, opened, revisions),
            step,
        ),
    ensures
        exists|now: Instant| #[trigger]
            old(sticky).shows(now) && opens_out(
                old(sticky).state(),
                final(sticky).state(),
                open,
                opened,
                old(revisions).next(),
                final(revisions).next(),
                now,
                step,
            ),
{
}

/// A session that may be closed is closed when its request is done; one that was
/// just opened is closed only by undoing the routing. Without a worker that takes
/// such calls nothing is closed.
pub proof fn law_close_probed_result(
    probe: SessionCloseProbe,
    available: bool,
    result: SessionRoutingResult,
)
    requires
        call_ensures(coordinator::on_close_probed, (probe, available), result),
    ensures
        result.deferred_close is Some <==> available && probe.opened is None,
        result.deferred_close is Some ==> result.deferred_close->0.session_id@
            == probe.close.session_id@ && result.deferred_close->0.worker_id
            == probe.close.worker_id,
        result.rollback is Some <==> probe.opened is Some,
        result.rollback is Some ==> {
            let undo = result.rollback->0;
            &&& undo.session() == probe.close.session_id@
            &&& undo.token() == probe.opened->0
            &&& undo.closes() is Some <==> available
            &&& undo.closes() is Some ==> undo.closes()->0 == (
                probe.close.session_id@,
                probe.close.worker_id,
            )
        },
{
}

/// Undoing a routing removes exactly the binding that it made, and gives out the
/// session that it opened.
pub proof fn law_rollback_routed_result(
    sticky: &mut StickySessionCoordinator,
    rollback: SessionRoutingRollback,
    close: Option<SessionCloseAction>,
)
    requires
        call_ensures(StickySessionCoordinator::rollback_routed, (sticky, rollback), close),
    ensures
        results::unbinds_if(
            old(sticky).state().router,
            final(sticky).state().router,
            rollback.session(),
            rollback.token(),
            old(sticky).state().router.store.holds(rollback.session(), rollback.token()),
        ),
        close is Some <==> rollback.closes() is Some,
        close is Some ==> rollback.closes()->0 == (close->0.session_id@, close->0.worker_id),
        differ_in_router_only(old(sticky).state(), final(sticky).state()),
{
}

/// A sweep of the coordinator sweeps its store and touches nothing else; taking the
/// announcements hands them over in order.
pub proof fn law_coordinator_reap_result(sticky: &mut StickySessionCoordinator, now: Instant)
    requires
        call_ensures(StickySessionCoordinator::reap_expired_at, (sticky, now), ()),
    ensures
        results::sweeps(
            old(sticky).state().router.store,
            final(sticky).state().router.store,
            now,
        ),
        results::differ_in_store_only(old(sticky).state().router, final(sticky).state().router),
        differ_in_router_only(old(sticky).state(), final(sticky).state()),
{
    results::lemma_sweep(
        old(sticky).state().router.store,
        final(sticky).state().router.store,
        now,
    );
}

/// A new coordinator has no bindings, turns, stamps or counts, and announces
/// expired sessions.
pub proof fn law_new_coordinator_result(sticky: StickySessionCoordinator)
    requires
        call_ensures(StickySessionCoordinator::new, (), sticky),
    ensures
        forall|session: Seq<char>| !sticky.state().turns.contains_key(session),
        forall|session: Seq<char>| !sticky.state().router.store.entries.contains_key(session),
        forall|session: Seq<char>| !sticky.state().router.last_rebind.contains_key(session),
        forall|session: Seq<char>| !sticky.state().router.rebind_counts.contains_key(session),
        sticky.state().router.store.announces_expiry,
        sticky.state().router.store.atomic_rebind,
        sticky.state().router.store.expired.len() == 0,
{
}

/// Committing and abandoning by the clock happen as of a moment that it shows.
pub proof fn law_clocked_guard_results(
    guard: SessionRebindGuard,
    sticky: &mut StickySessionCoordinator,
    committed: bool,
    dropped: SessionRebindGuard,
    other: &mut StickySessionCoordinator,
)
    requires
        committed ==> old(sticky).state().router.rebinds(guard.session()) < u32::MAX,
        call_ensures(SessionRebindGuard::commit, (guard, sticky), committed),
        call_ensures(SessionRebindGuard::abandon, (dropped, other), ()),
    ensures
        exists|now: Instant| #[trigger]
            old(sticky).shows(now) && (committed ==> results::commits(
                old(sticky).state().router,
                final(sticky).state().router,
                guard.session(),
                guard.token(),
                now,
                true,
            )) && (!committed ==> results::commits(
                old(sticky).state().router,
                old(sticky).state().router,
                guard.session(),
                guard.token(),
                now,
                false,
            ) && results::rolls_back(
                old(sticky).state().router,
                final(sticky).state().router,
                guard.session(),
                guard.token(),
                now,
                results::shadows(
                    old(sticky).state().router.store,
                    guard.session(),
                    guard.token(),
                ),
            )),
        exists|now: Instant| #[trigger]
            old(other).shows(now) && results::rolls_back(
                old(other).state().router,
                final(other).state().router,
                dropped.session(),
                dropped.token(),
                now,
                results::shadows(
                    old(other).state().router.store,
                    dropped.session(),
                    dropped.token(),
                ),
            ),
        differ_in_router_only(old(sticky).state(), final(sticky).state()),
        differ_in_router_only(old(other).state(), final(other).state()),
{
}

/// Extending affinity by the clock happens as of a moment that it shows.
pub proof fn law_clocked_refresh_result(
    sticky: &mut StickySessionCoordinator,
    request: &PreprocessedRequest,
    phase: RequestPhase,
)
    requires
        call_ensures(
            StickySessionCoordinator::refresh_worker_for_phase,
            (sticky, request, phase),
            (),
        ),
    ensures
        sticks(*request, phase) && !acts(*request) ==> exists|now: Instant| #[trigger]
            old(sticky).shows(now) && results::resolves(
                old(sticky).state().router,
                final(sticky).state().router,
                session_of(*request),
                now,
                if results::lives(old(sticky).state().router.store, session_of(*request), now) {
                    Some(old(sticky).state().router.store.entries[session_of(*request)].worker)
                } else {
                    None
                },
            ),
        !sticks(*request, phase) || acts(*request) ==> final(sticky).state() == old(
            sticky,
        ).state(),
        differ_in_router_only(old(sticky).state(), final(sticky).state()),
{
}

/// The cooldown by the clock is that of a moment that it shows.
pub proof fn law_clocked_coordinator_cooldown_result(
    sticky: &StickySessionCoordinator,
    session_id: &str,
    cooldown: Duration,
    cooling: bool,
)
    requires
        call_ensures(
            StickySessionCoordinator::in_rebind_cooldown,
            (sticky, session_id, cooldown),
            cooling,
        ),
    ensures
        exists|now: Instant| #[trigger]
            sticky.shows(now) && (cooling <==> {
                let span = cooldown.secs * 1000000000 + cooldown.subsec_nanos;
                let stamp = sticky.state().router.last_rebind[session_id@];
                &&& sticky.state().router.last_rebind.contains_key(session_id@)
                &&& if stamp.nanos <= now.nanos {
                    now.nanos < stamp.nanos + span
                } else {
                    0 < span
                }
            }),
{
}

/// Sweeping by the clock happens as of a moment that it shows, and the expired
/// sessions are handed over once, in order.
pub proof fn law_clocked_reap_and_take_results(
    sticky: &mut StickySessionCoordinator,
    other: &mut StickySessionCoordinator,
    listed: Vec<(String, u64)>,
)
    requires
        call_ensures(StickySessionCoordinator::reap_expired, (sticky,), ()),
        call_ensures(StickySessionCoordinator::take_expired, (other,), listed),
    ensures
        exists|now: Instant| #[trigger]
            old(sticky).shows(now) && results::sweeps(
                old(sticky).state().router.store,
                final(sticky).state().router.store,
                now,
            ),
        results::differ_in_store_only(old(sticky).state().router, final(sticky).state().router),
        differ_in_router_only(old(sticky).state(), final(sticky).state()),
        listed@.len() == old(other).state().router.store.expired.len(),
        forall|i: int|
            #![trigger listed@[i]]
            0 <= i < listed@.len() ==> (listed@[i].0@, listed@[i].1) == old(
                other,
            ).state().router.store.expired[i],
        final(other).state().router.store.expired.len() == 0,
        final(other).state().router.store.entries == old(other).state().router.store.entries,
        results::differ_in_store_only(old(other).state().router, final(other).state().router),
        differ_in_router_only(old(other).state(), final(other).state()),
{
    let now = choose|now: Instant| #[trigger]
        old(sticky).shows(now) && now.in_range() && old(sticky).state().router.store.sweeps_to(
            final(sticky).state().router.store,
            now,
        );
    results::lemma_sweep(
        old(sticky).state().router.store,
        final(sticky).state().router.store,
        now,
    );
    let notices = crate::sticky::router::notices(listed@);
    assert forall|i: int| #![trigger listed@[i]] 0 <= i < listed@.len() implies (
        listed@[i].0@,
        listed@[i].1,
    ) == old(other).state().router.store.expired[i] by {
        assert(notices[i] == (listed@[i].0@, listed@[i].1));
    }
}

/// Whether a count has room says whether it is below the greatest one, and the
/// moment that is read is one that the clock shows.
pub proof fn law_countable_and_now_results(
    guard: &SessionRebindGuard,
    sticky: &StickySessionCoordinator,
    room: bool,
    now: Instant,
)
    requires
        call_ensures(SessionRebindGuard::is_countable, (guard, sticky), room),
        call_ensures(StickySessionCoordinator::now, (sticky,), now),
    ensures
        room <==> !sticky.state().router.rebind_counts.contains_key(guard.session())
            || sticky.state().router.rebind_counts[guard.session()] < 4294967295,
        exists|moment: std::time::Instant|
            now.nanos == #[trigger] crate::time::instant_gap(moment, sticky.state().router.epoch),
{
}

} // verus!
