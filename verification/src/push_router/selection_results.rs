//! What the steps of selecting a worker give back.
//!
//! Each law takes one call of a step, or several in a row, and relates what came
//! out to the fields of the request and of the plan, to what the scheduler said and
//! to the entries of the store.

use vstd::prelude::*;

use std::collections::HashMap;

use crate::protocols::{
    Annotated, AnnotationValue, PreprocessedRequest, RequestPhase, WorkerIdInfo, WorkerWithDpRank,
};
use crate::push_router::config::RebindConfig;
use crate::push_router::decision::{PotentialLoad, RebindDecision, WorkerRuntimeConfig};
use crate::push_router::decision_results;
use crate::push_router::direct::DirectRoutingRouter;
use crate::push_router::error::RouteError;
use crate::push_router::gate_results;
use crate::push_router::prefill::{PrefillSelection, PrefillStep};
use crate::push_router::router::{KvPushRouter, PushState, RebindTransition};
use crate::push_router::selection;
use crate::push_router::selection::{
    BindingRecheck, FailedSelection, GenerateStep, RefusedSelection, RoutingRecord, SelectionPlan,
    TrackerRecord, WorkerSelection,
};
use crate::sticky::coordinator::{SessionRebindGuard, SessionTurnGuard, StickySessionCoordinator};
use crate::sticky::results;
use crate::sticky::revisions::AffinityRevisions;
use crate::sticky::router::AffinityBindingToken;
use crate::sticky::session_results;
use crate::time::Instant;

verus! {

/// The two routers agree on everything but the bindings.
pub open spec fn differ_in_bindings_only(before: PushState, after: PushState) -> bool {
    &&& after.recorded == before.recorded
    &&& after.sticky.turns == before.sticky.turns
    &&& results::differ_in_store_only(before.sticky.router, after.sticky.router)
}

/// The token is that of the live binding of the session that the request belongs
/// to, in whatever phase it is, and there is none exactly where there is no such
/// binding.
pub open spec fn is_followed(
    before: PushState,
    request: PreprocessedRequest,
    phase: RequestPhase,
    now: Instant,
    token: Option<AffinityBindingToken>,
) -> bool {
    let store = before.sticky.router.store;
    let session = session_results::session_of(request);
    &&& token is Some <==> session_results::belongs(request, phase) && results::lives(
        store,
        session,
        now,
    )
    &&& token is Some ==> {
        &&& token->0.binding.worker == store.entries[session].worker
        &&& token->0.binding.kind == store.entries[session].kind
        &&& token->0.revision == store.entries[session].revision
    }
}

/// A request is resolved to the live binding of its session in every phase. One
/// that only asks changes nothing; any other drops an expired binding, as every
/// lookup does.
pub proof fn law_resolve_binding_result(
    router: &mut KvPushRouter,
    request: &PreprocessedRequest,
    phase: RequestPhase,
    is_query_only: bool,
    now: Instant,
    token: Option<AffinityBindingToken>,
)
    requires
        call_ensures(
            KvPushRouter::resolve_binding_for_phase_at,
            (router, request, phase, is_query_only, now),
            token,
        ),
    ensures
        is_followed(old(router).state(), *request, phase, now, token),
        is_query_only || !session_results::belongs(*request, phase) ==> final(router).state()
            == old(router).state(),
        !is_query_only && session_results::belongs(*request, phase) ==> results::reads_token(
            old(router).state().sticky.router,
            final(router).state().sticky.router,
            session_results::session_of(*request),
            now,
            token,
        ),
        differ_in_bindings_only(old(router).state(), final(router).state()),
        final(router).config == old(router).config,
{
}

/// As of a moment that the clock shows.
pub proof fn law_clocked_resolve_binding_result(
    router: &mut KvPushRouter,
    request: &PreprocessedRequest,
    phase: RequestPhase,
    is_query_only: bool,
    token: Option<AffinityBindingToken>,
)
    requires
        call_ensures(
            KvPushRouter::resolve_binding_for_phase,
            (router, request, phase, is_query_only),
            token,
        ),
    ensures
        exists|now: Instant| #[trigger]
            old(router).sticky.shows(now) && is_followed(
                old(router).state(),
                *request,
                phase,
                now,
                token,
            ),
        is_query_only || !session_results::belongs(*request, phase) ==> final(router).state()
            == old(router).state(),
        differ_in_bindings_only(old(router).state(), final(router).state()),
        final(router).config == old(router).config,
{
}

/// The selection step and the lookup of a session agree: a request is resolved to
/// the very worker that a lookup of its session answers, and to nothing exactly
/// where the lookup answers nothing.
pub proof fn law_resolving_agrees_with_the_lookup(
    router: &mut KvPushRouter,
    request: &PreprocessedRequest,
    phase: RequestPhase,
    is_query_only: bool,
    now: Instant,
    token: Option<AffinityBindingToken>,
    sticky: &mut StickySessionCoordinator,
    worker: Option<WorkerWithDpRank>,
)
    requires
        call_ensures(
            KvPushRouter::resolve_binding_for_phase_at,
            (router, request, phase, is_query_only, now),
            token,
        ),
        old(sticky).state() == old(router).sticky.state(),
        call_ensures(
            StickySessionCoordinator::worker_for_phase_at,
            (sticky, request, phase, now),
            worker,
        ),
    ensures
        token is Some <==> worker is Some,
        token is Some ==> token->0.binding.worker == worker->0,
{
}

/// A binding is followed unless its rank is ineligible for a request without an
/// action. An ineligible one is removed, unless the request only asks.
pub proof fn law_keep_eligible_result(
    router: &mut KvPushRouter,
    request: &PreprocessedRequest,
    phase: RequestPhase,
    is_query_only: bool,
    token: AffinityBindingToken,
    ineligible: bool,
    kept: Option<AffinityBindingToken>,
)
    requires
        call_ensures(
            KvPushRouter::keep_eligible_binding_for_phase,
            (router, request, phase, is_query_only, token, ineligible),
            kept,
        ),
    ensures
        kept is Some <==> !ineligible || session_results::acts(*request),
        kept is Some ==> kept->0 == token && final(router).state() == old(router).state(),
        is_query_only ==> final(router).state() == old(router).state(),
        kept is None && !is_query_only && session_results::belongs(*request, phase)
            ==> results::unbinds_if(
            old(router).state().sticky.router,
            final(router).state().sticky.router,
            session_results::session_of(*request),
            token,
            old(router).state().sticky.router.store.holds(
                session_results::session_of(*request),
                token,
            ),
        ),
        differ_in_bindings_only(old(router).state(), final(router).state()),
        final(router).config == old(router).config,
{
}

/// A request goes to the rank that its session is bound to, and may go elsewhere if
/// that fails unless it carries a lifecycle action; one that must go to a rank goes
/// there or nowhere.
pub proof fn law_plan_results(
    request: &PreprocessedRequest,
    is_query_only: bool,
    binding: Option<AffinityBindingToken>,
    target: WorkerWithDpRank,
    plan: SelectionPlan,
    bound: SelectionPlan,
    booked: bool,
)
    requires
        call_ensures(selection::select_request, (request, is_query_only, binding), plan),
        call_ensures(selection::select_request_for_final_target, (target,), bound),
        call_ensures(SelectionPlan::books, (&plan,), booked),
    ensures
        plan.pinned_worker is Some <==> binding is Some,
        binding is Some ==> plan.pinned_worker->0 == binding->0.binding.worker,
        plan.is_query_only == is_query_only,
        plan.refresh_sticky,
        plan.allow_sticky_fallback <==> !session_results::acts(*request),
        booked <==> !is_query_only,
        bound.pinned_worker == Some(target),
        !bound.is_query_only,
        !bound.refresh_sticky,
        !bound.allow_sticky_fallback,
{
}

/// A choice extends the affinity of an ordinary turn that followed its session and
/// was booked, for its whole time to live; any other choice changes nothing.
pub proof fn law_selection_succeeded_result(
    router: &mut KvPushRouter,
    request: &PreprocessedRequest,
    phase: RequestPhase,
    plan: SelectionPlan,
    now: Instant,
)
    requires
        now.in_range(),
        call_ensures(
            KvPushRouter::selection_succeeded_at,
            (router, request, phase, plan, now),
            (),
        ),
    ensures
        ({
            let extends = plan.refresh_sticky && plan.pinned_worker is Some && !plan.is_query_only
                && session_results::sticks(*request, phase) && !session_results::acts(*request);
            &&& !extends ==> final(router).state() == old(router).state()
            &&& extends ==> exists|worker: Option<WorkerWithDpRank>| #[trigger]
                results::resolves(
                    old(router).state().sticky.router,
                    final(router).state().sticky.router,
                    session_results::session_of(*request),
                    now,
                    worker,
                )
        }),
        differ_in_bindings_only(old(router).state(), final(router).state()),
        final(router).config == old(router).config,
{
    let session = session_results::session_of(*request);
    let store = old(router).state().sticky.router.store;
    assert(plan.refresh_sticky && plan.pinned_worker is Some && !plan.is_query_only
        && session_results::sticks(*request, phase) && !session_results::acts(*request)
        ==> results::resolves(
        old(router).state().sticky.router,
        final(router).state().sticky.router,
        session,
        now,
        if results::lives(store, session, now) {
            Some(store.entries[session].worker)
        } else {
            None
        },
    ));
}

/// A failed selection is reconsidered exactly if the plan allows it and the live
/// binding of the session is still to the rank that was pinned.
pub proof fn law_selection_failed_result(
    router: &mut KvPushRouter,
    request: &PreprocessedRequest,
    phase: RequestPhase,
    plan: SelectionPlan,
    now: Instant,
    next: FailedSelection,
)
    requires
        call_ensures(
            KvPushRouter::selection_failed_at,
            (router, request, phase, plan, now),
            next,
        ),
    ensures
        ({
            let store = old(router).state().sticky.router.store;
            let session = session_results::session_of(*request);
            next is Recheck <==> plan.allow_sticky_fallback && session_results::belongs(
                *request,
                phase,
            ) && results::lives(store, session, now) && plan.pinned_worker == Some(
                store.entries[session].worker,
            )
        }),
        next is Recheck ==> next->Recheck_0.plan == plan && is_followed(
            old(router).state(),
            *request,
            phase,
            now,
            Some(next->Recheck_0.token),
        ),
        plan.is_query_only || !plan.allow_sticky_fallback || plan.pinned_worker is None
            || next is Recheck ==> final(router).state() == old(router).state(),
        differ_in_bindings_only(old(router).state(), final(router).state()),
        final(router).config == old(router).config,
{
}

/// A reconsidered selection goes on without a pin exactly if the rank is ineligible
/// and the binding is still the one that was seen, and that binding is gone then,
/// unless the request only asks.
pub proof fn law_recheck_answered_result(
    recheck: BindingRecheck,
    router: &mut KvPushRouter,
    request: &PreprocessedRequest,
    phase: RequestPhase,
    ineligible: bool,
    next: Option<SelectionPlan>,
)
    requires
        session_results::belongs(*request, phase),
        call_ensures(
            BindingRecheck::answered,
            (recheck, router, request, phase, ineligible),
            next,
        ),
    ensures
        ({
            let entries = old(router).state().sticky.router.store.entries;
            let session = session_results::session_of(*request);
            next is Some <==> {
                &&& ineligible
                &&& entries.contains_key(session)
                &&& entries[session].worker == recheck.token.binding.worker
                &&& entries[session].kind == recheck.token.binding.kind
                &&& entries[session].revision == recheck.token.revision
            }
        }),
        next is Some ==> {
            &&& next->0.pinned_worker is None
            &&& next->0.is_query_only == recheck.plan.is_query_only
            &&& next->0.refresh_sticky == recheck.plan.refresh_sticky
            &&& next->0.allow_sticky_fallback == recheck.plan.allow_sticky_fallback
        },
        next is None || recheck.plan.is_query_only ==> final(router).state() == old(
            router,
        ).state(),
        next is Some && !recheck.plan.is_query_only ==> results::unbinds_if(
            old(router).state().sticky.router,
            final(router).state().sticky.router,
            session_results::session_of(*request),
            recheck.token,
            true,
        ),
        differ_in_bindings_only(old(router).state(), final(router).state()),
        final(router).config == old(router).config,
{
}

/// A selection of another rank than the one it was to be is refused with both named,
/// and its booking is to be freed if there is one.
pub proof fn law_final_target_result(
    request_id: &str,
    chosen: &WorkerSelection,
    expected: WorkerWithDpRank,
    checked: Result<(), RefusedSelection>,
)
    requires
        call_ensures(
            selection::reject_unexpected_final_target,
            (request_id, chosen, expected),
            checked,
        ),
    ensures
        checked is Ok <==> chosen.instance_id == expected.worker_id && chosen.dp_rank
            == expected.dp_rank,
        checked is Err ==> is_mismatch(checked->Err_0, request_id@, *chosen, expected),
{
}

/// The selection is refused because it chose another rank.
pub open spec fn is_mismatch(
    refused: RefusedSelection,
    request_id: Seq<char>,
    chosen: WorkerSelection,
    expected: WorkerWithDpRank,
) -> bool {
    &&& refused.free_booking == chosen.scheduler_tracked
    &&& refused.error is TargetMismatch
    &&& refused.error->TargetMismatch_request_id@ == request_id
    &&& refused.error->TargetMismatch_expected == expected
    &&& refused.error->TargetMismatch_selected.worker_id == chosen.instance_id
    &&& refused.error->TargetMismatch_selected.dp_rank == chosen.dp_rank
}

/// A routing decision is recorded by the hashes that the scheduler computed, which
/// are then spent, or by the tokens under the adapter of the request, and for the
/// rank that was selected; nothing else of the selection changes.
pub proof fn law_track_selection_result(
    request: &PreprocessedRequest,
    chosen: &mut WorkerSelection,
    records: bool,
    record: Option<RoutingRecord>,
)
    requires
        call_ensures(selection::track_selection, (request, chosen, records), record),
    ensures
        record is Some <==> records,
        record is Some && old(chosen).routing_hashes is Some ==> {
            &&& record->0 is Hashes
            &&& record->0->Hashes_hashes == old(chosen).routing_hashes->0
            &&& record->0->Hashes_worker.worker_id == old(chosen).instance_id
            &&& record->0->Hashes_worker.dp_rank == old(chosen).dp_rank
            &&& final(chosen).routing_hashes is None
        },
        record is Some && old(chosen).routing_hashes is None ==> {
            &&& record->0 is Tokens
            &&& record->0->Tokens_worker.worker_id == old(chosen).instance_id
            &&& record->0->Tokens_worker.dp_rank == old(chosen).dp_rank
            &&& request.routing is Some ==> record->0->Tokens_lora_name
                == request.routing->0.lora_name
            &&& request.routing is None ==> record->0->Tokens_lora_name is None
            &&& final(chosen).routing_hashes is None
        },
        record is None ==> final(chosen).routing_hashes == old(chosen).routing_hashes,
        final(chosen).instance_id == old(chosen).instance_id,
        final(chosen).dp_rank == old(chosen).dp_rank,
        final(chosen).scheduler_tracked == old(chosen).scheduler_tracked,
        final(chosen).cached_tokens == old(chosen).cached_tokens,
{
}

/// A tracker is told the least number of blocks that hold the tokens, the tokens
/// themselves by number, what was cached and the rank that was selected.
pub proof fn law_tracker_record_result(
    request: &PreprocessedRequest,
    chosen: &WorkerSelection,
    tokens: usize,
    block_size: usize,
    record: Option<TrackerRecord>,
)
    requires
        request.tracker_phase is Some ==> block_size > 0,
        call_ensures(
            selection::tracker_record,
            (request, chosen, tokens, block_size),
            record,
        ),
    ensures
        record is Some <==> request.tracker_phase is Some,
        record is Some ==> {
            &&& record->0.input_tokens == tokens
            &&& record->0.cached_tokens == chosen.cached_tokens
            &&& record->0.worker.worker_id == chosen.instance_id
            &&& record->0.worker.dp_rank == chosen.dp_rank
            &&& tokens <= record->0.input_blocks * block_size
            &&& (record->0.input_blocks - 1) * block_size < tokens
        },
{
}

/// A query is answered, with the worker that was selected and with its tokens, and
/// everything else is dispatched.
pub proof fn law_query_results(
    request: &PreprocessedRequest,
    chosen: &WorkerSelection,
    workers: Option<WorkerIdInfo>,
    step: GenerateStep,
    frames: Vec<Annotated>,
)
    requires
        call_ensures(selection::after_selection, (request,), step),
        call_ensures(selection::query_response, (request, chosen, workers), frames),
    ensures
        step == GenerateStep::Answer <==> request.query_instance_id is Some,
        step == GenerateStep::Dispatch <==> request.query_instance_id is None,
        frames@.len() == 3,
        frames@[0].event is Some,
        frames@[0].event->0@ == "worker_instance_id"@,
        frames@[0].annotation == Some(AnnotationValue::WorkerId(chosen.instance_id)),
        frames@[0].data is None && frames@[0].error is None && !frames@[0].is_error,
        frames@[1].event is Some,
        frames@[1].event->0@ == "token_data"@,
        frames@[1].annotation is Some,
        frames@[1].annotation->0 is Tokens,
        frames@[1].annotation->0->Tokens_0@ == request.token_ids@,
        frames@[1].data is None && frames@[1].error is None && !frames@[1].is_error,
        frames@[2].event is None && frames@[2].error is None && !frames@[2].is_error,
        frames@[2].data is Some,
        frames@[2].data->0.finish_reason is None,
        frames@[2].data->0.routing_data is Some,
        frames@[2].data->0.routing_data->0.worker_id == workers,
        frames@[2].data->0.routing_data->0.token_ids is Some,
        frames@[2].data->0.routing_data->0.token_ids->0@ == request.token_ids@,
{
}

/// Direct routing takes the worker for decoding before that of the backend, and
/// fails exactly where the request names neither.
pub proof fn law_direct_worker_result<P>(
    request: &PreprocessedRequest,
    worker_id: Result<u64, RouteError>,
)
    requires
        call_ensures(DirectRoutingRouter::<P>::get_worker_id, (request,), worker_id),
    ensures
        ({
            let hints = request.routing->0;
            let named = request.routing is Some && (hints.decode_worker_id is Some
                || hints.backend_instance_id is Some);
            &&& worker_id is Ok <==> named
            &&& worker_id is Err ==> worker_id->Err_0 is WorkerIdRequired
            &&& named && hints.decode_worker_id is Some ==> worker_id->Ok_0
                == hints.decode_worker_id->0
            &&& named && hints.decode_worker_id is None ==> worker_id->Ok_0
                == hints.backend_instance_id->0
        }),
{
}

/// A prefill starts exactly if nobody else has the turn of its session. It then has
/// the turn, and resolves its session unless it carries a lifecycle action. One that
/// is refused learns who has the turn, and changes nothing.
pub proof fn law_start_prefill_result(
    router: &mut KvPushRouter,
    request: &PreprocessedRequest,
    context_id: &str,
    started: Result<PrefillStep, RouteError>,
)
    requires
        call_ensures(KvPushRouter::start_prefill, (router, request, context_id), started),
    ensures
        ({
            let session = session_results::session_of(*request);
            let turns = old(router).state().sticky.turns;
            let member = session_results::in_session(*request);
            &&& started is Err <==> member && turns.contains_key(session)
            &&& started is Err ==> {
                &&& started->Err_0 is TurnInFlight
                &&& started->Err_0->TurnInFlight_session_id@ == session
                &&& started->Err_0->current_owner@ == turns[session]
                &&& final(router).state() == old(router).state()
            }
            &&& started is Ok ==> {
                &&& started->Ok_0 is Select <==> session_results::acts(*request)
                &&& started->Ok_0 is Resolve <==> !session_results::acts(*request)
            }
            &&& started is Ok && member ==> {
                let turn = if session_results::acts(*request) {
                    started->Ok_0->Select_0
                } else {
                    started->Ok_0->Resolve_0
                };
                &&& turn is Some
                &&& turn->0.session() == session
                &&& turn->0.owner() == context_id@
                &&& final(router).state().sticky.turns == turns.insert(session, context_id@)
            }
            &&& !member ==> started->Ok_0->Resolve_0 is None && final(router).state() == old(
                router,
            ).state()
        }),
        final(router).state().sticky.router == old(router).state().sticky.router,
        final(router).state().recorded == old(router).state().recorded,
        final(router).config == old(router).config,
{
}

/// The loads are asked for exactly if the turn is movable, its session is bound as
/// it was resolved with no rebind pending, and its worker takes part in rebinds;
/// otherwise the worker is selected as usual. The turn is handed on.
pub proof fn law_binding_resolved_result(
    router: &mut KvPushRouter,
    turn: Option<SessionTurnGuard>,
    request: &PreprocessedRequest,
    hot_binding: Option<AffinityBindingToken>,
    configs: &HashMap<u64, WorkerRuntimeConfig>,
    now: Instant,
    step: PrefillStep,
)
    requires
        call_ensures(
            KvPushRouter::binding_resolved_at,
            (router, turn, request, hot_binding, configs, now),
            step,
        ),
    ensures
        ({
            let store = old(router).state().sticky.router.store;
            let session = session_results::session_of(*request);
            let entry = store.entries[session];
            let asks = {
                &&& hot_binding is Some
                &&& decision_results::is_movable_turn(*request, RequestPhase::Prefill)
                &&& results::lives(store, session, now)
                &&& store.atomic_rebind
                &&& entry.worker == hot_binding->0.binding.worker
                &&& entry.kind == hot_binding->0.binding.kind
                &&& entry.revision == hot_binding->0.revision
                &&& entry.pending_rebind is None
                &&& decision_results::confirms_prefills(
                    configs@,
                    hot_binding->0.binding.worker.worker_id,
                )
            };
            &&& step is Loads <==> asks
            &&& step is Loads ==> step->Loads_session_turn == turn && step->Loads_expected
                == hot_binding->0
            &&& step is Select <==> !asks
            &&& step is Select ==> step->Select_0 == turn
        }),
        hot_binding is None ==> final(router).state() == old(router).state(),
        results::lives(
            old(router).state().sticky.router.store,
            session_results::session_of(*request),
            now,
        ) ==> final(router).state() == old(router).state(),
        differ_in_bindings_only(old(router).state(), final(router).state()),
        final(router).config == old(router).config,
{
}

/// The cold rank is booked exactly if a rebind is decided on by these loads, and by
/// a plan that leaves no other choice; otherwise, and without loads, the worker is
/// selected as usual. The turn is handed on.
pub proof fn law_loads_known_result(
    router: &KvPushRouter,
    turn: Option<SessionTurnGuard>,
    request: &PreprocessedRequest,
    expected: AffinityBindingToken,
    configs: &HashMap<u64, WorkerRuntimeConfig>,
    loads: Option<&Vec<PotentialLoad>>,
    now: Instant,
    step: PrefillStep,
    made: Option<RebindDecision>,
)
    requires
        call_ensures(
            KvPushRouter::loads_known_at,
            (router, turn, request, expected, configs, loads, now),
            step,
        ),
        call_ensures(
            KvPushRouter::check_rebind_decision_at,
            (router, request, RequestPhase::Prefill, Some(expected), configs, loads, now),
            made,
        ),
    ensures
        step is SelectFinal <==> made is Some,
        step is SelectFinal ==> {
            &&& step->SelectFinal_session_turn == turn
            &&& step->decision.session_id@ == made->0.session_id@
            &&& step->decision.expected == made->0.expected
            &&& step->decision.cold == made->0.cold
            &&& step->decision.ttl == made->0.ttl
            &&& step->plan.pinned_worker == Some(made->0.cold)
            &&& !step->plan.is_query_only
            &&& !step->plan.allow_sticky_fallback
            &&& !step->plan.refresh_sticky
        },
        step is Select <==> made is None,
        step is Select ==> step->Select_0 == turn,
{
    if loads is Some {
        let config = router.config;
        let marked = crate::push_router::decision::supported_loads(configs@, loads->0@);
        if step is SelectFinal && made is Some {
            crate::push_router::laws::law_rebind_target_is_the_coldest_rank(
                config,
                marked,
                expected,
                step->decision.cold,
                made->0.cold,
            );
        }
    }
}

/// A shadow rebind starts exactly if the booked rank is the cold one of the decision
/// and the session is still bound as decided on. The prefill then holds the rebind
/// and its turn; otherwise it is refused, its turn is given back and nothing else
/// changed.
pub proof fn law_start_shadow_result(
    router: &mut KvPushRouter,
    request_id: &str,
    turn: Option<SessionTurnGuard>,
    decision: &RebindDecision,
    chosen: WorkerSelection,
    now: Instant,
    revisions: &mut AffinityRevisions,
    started: Result<PrefillSelection, RefusedSelection>,
)
    requires
        call_ensures(
            KvPushRouter::start_shadow_at,
            (router, request_id, turn, decision, chosen, now, revisions),
            started,
        ),
    ensures
        started is Ok ==> {
            let prefill = started->Ok_0;
            &&& chosen.instance_id == decision.cold.worker_id
            &&& chosen.dp_rank == decision.cold.dp_rank
            &&& prefill.selection == chosen
            &&& prefill.session_turn == turn
            &&& prefill.pending_rebind is Some
            &&& prefill.pending_rebind->0.session() == decision.session_id@
            &&& results::begins(
                old(router).state().sticky.router,
                final(router).state().sticky.router,
                decision.session_id@,
                decision.expected,
                decision.cold,
                decision.ttl,
                old(revisions).next(),
                final(revisions).next(),
                now,
                Some(prefill.pending_rebind->0.token()),
            )
            &&& final(router).state().sticky.turns == old(router).state().sticky.turns
            &&& final(router).state().recorded == old(router).state().recorded.push(
                RebindTransition::DecisionLoadImbalance,
            )
        },
        started is Err ==> {
            let refused = started->Err_0;
            let matches = chosen.instance_id == decision.cold.worker_id && chosen.dp_rank
                == decision.cold.dp_rank;
            &&& gate_results::gives_turn_back(old(router).state(), final(router).state(), turn)
            &&& final(revisions).next() == old(revisions).next()
            &&& !matches ==> is_mismatch(refused, request_id@, chosen, decision.cold)
            &&& matches ==> {
                &&& refused.free_booking == chosen.scheduler_tracked
                &&& refused.error is SessionChanged
                &&& refused.error->SessionChanged_session_id@ == decision.session_id@
                &&& results::begins(
                    old(router).state().sticky.router,
                    old(router).state().sticky.router,
                    decision.session_id@,
                    decision.expected,
                    decision.cold,
                    decision.ttl,
                    old(revisions).next(),
                    old(revisions).next(),
                    now,
                    None,
                )
            }
        },
        final(router).config == old(router).config,
{
}

/// A prefill that cannot be tracked or prepared gives its rebind up, each under its
/// own name, and its turn back.
pub proof fn law_aborted_prefill_results(
    router: &mut KvPushRouter,
    prefill: PrefillSelection,
    now: Instant,
    other: &mut KvPushRouter,
    same: PrefillSelection,
)
    requires
        call_ensures(KvPushRouter::tracking_failed_at, (router, prefill, now), ()),
        call_ensures(KvPushRouter::prepare_failed_at, (other, same, now), ()),
    ensures
        gate_results::ends_and_releases(
            old(router).state(),
            final(router).state(),
            gate_results::held(prefill.pending_rebind),
            prefill.session_turn,
            RebindTransition::AbortTrackingError,
            now,
        ),
        gate_results::ends_and_releases(
            old(other).state(),
            final(other).state(),
            gate_results::held(same.pending_rebind),
            same.session_turn,
            RebindTransition::AbortPrepareError,
            now,
        ),
        final(router).config == old(router).config,
        final(other).config == old(other).config,
{
    assert(gate_results::ends(
        old(router).state(),
        crate::push_router::prefill::gave_up(
            old(router).state(),
            prefill.pending_rebind,
            RebindTransition::AbortTrackingError,
            now,
        ),
        gate_results::held(prefill.pending_rebind),
        RebindTransition::AbortTrackingError,
        now,
    ));
    assert(gate_results::ends(
        old(other).state(),
        crate::push_router::prefill::gave_up(
            old(other).state(),
            same.pending_rebind,
            RebindTransition::AbortPrepareError,
            now,
        ),
        gate_results::held(same.pending_rebind),
        RebindTransition::AbortPrepareError,
        now,
    ));
}

/// A released turn is free again, and a worker that was selected as usual comes
/// with its turn and without a rebind.
pub proof fn law_release_and_usual_results(
    router: &mut KvPushRouter,
    turn: Option<SessionTurnGuard>,
    chosen: WorkerSelection,
    held: Option<SessionTurnGuard>,
    prefill: PrefillSelection,
)
    requires
        call_ensures(KvPushRouter::release_turn, (router, turn), ()),
        call_ensures(PrefillSelection::usual, (chosen, held), prefill),
    ensures
        gate_results::gives_turn_back(old(router).state(), final(router).state(), turn),
        final(router).config == old(router).config,
        prefill.selection == chosen,
        prefill.session_turn == held,
        prefill.pending_rebind is None,
{
}

/// The message of an error names what the error names.
pub proof fn law_error_message_result(error: &RouteError, message: String, invalid: bool)
    requires
        call_ensures(RouteError::message, (error,), message),
        call_ensures(RouteError::is_invalid_argument, (error,), invalid),
    ensures
        invalid <==> error is TurnInFlight,
        error matches RouteError::TurnInFlight { session_id, current_owner } ==> message@
            == "session "@ + session_id@
            + " already has an in-flight prefill turn owned by request "@ + current_owner@,
        error matches RouteError::TargetMismatch { request_id, expected, selected } ==> message@
            == "stateful final-target selection mismatch for request "@ + request_id@
            + ": expected "@ + ("worker "@ + crate::text::decimal_text(expected.worker_id as nat)
            + " dp_rank "@ + crate::text::decimal_text(expected.dp_rank as nat)) + ", got "@ + (
        "worker "@ + crate::text::decimal_text(selected.worker_id as nat) + " dp_rank "@
            + crate::text::decimal_text(selected.dp_rank as nat)),
        error matches RouteError::SessionChanged { session_id } ==> message@ == "session "@
            + session_id@ + " changed while preparing rebind; refusing stale cold dispatch"@,
{
}

/// Recorded transitions are handed over once, in the order in which they were
/// recorded, and bindings and turns do not change by either.
pub proof fn law_transition_log_results(
    router: &mut KvPushRouter,
    transition: RebindTransition,
    again: &mut KvPushRouter,
    taken: Vec<RebindTransition>,
)
    requires
        call_ensures(KvPushRouter::record_rebind_transition, (router, transition), ()),
        old(again).state() == final(router).state(),
        call_ensures(KvPushRouter::take_transitions, (again,), taken),
    ensures
        taken@ == old(router).state().recorded.push(transition),
        final(again).state().recorded.len() == 0,
        final(again).state().sticky == old(router).state().sticky,
{
}

/// The binding that a rebind may be decided on is the resolved one, exactly while it
/// is the live one of a session that decides where the request goes, with no rebind
/// pending.
pub proof fn law_stable_binding_result(
    router: &mut KvPushRouter,
    request: &PreprocessedRequest,
    hot_binding: Option<AffinityBindingToken>,
    now: Instant,
    expected: Option<AffinityBindingToken>,
)
    requires
        call_ensures(
            KvPushRouter::stable_binding_at,
            (router, request, hot_binding, now),
            expected,
        ),
    ensures
        ({
            let store = old(router).state().sticky.router.store;
            let session = session_results::session_of(*request);
            let entry = store.entries[session];
            expected is Some <==> {
                &&& hot_binding is Some
                &&& session_results::sticks(*request, RequestPhase::Prefill)
                &&& store.atomic_rebind
                &&& results::lives(store, session, now)
                &&& entry.worker == hot_binding->0.binding.worker
                &&& entry.kind == hot_binding->0.binding.kind
                &&& entry.revision == hot_binding->0.revision
                &&& entry.pending_rebind is None
            }
        }),
        expected is Some ==> expected == hot_binding,
        hot_binding is None ==> final(router).state() == old(router).state(),
        differ_in_bindings_only(old(router).state(), final(router).state()),
        final(router).config == old(router).config,
{
}

/// By the clock too, the loads are asked for only for a movable turn whose binding
/// is the resolved one and whose worker takes part in rebinds, and then always if the
/// binding is live at the moment that the clock shows.
pub proof fn law_clocked_binding_resolved_result(
    router: &mut KvPushRouter,
    turn: Option<SessionTurnGuard>,
    request: &PreprocessedRequest,
    hot_binding: Option<AffinityBindingToken>,
    configs: &HashMap<u64, WorkerRuntimeConfig>,
    step: PrefillStep,
)
    requires
        call_ensures(
            KvPushRouter::binding_resolved,
            (router, turn, request, hot_binding, configs),
            step,
        ),
    ensures
        exists|now: Instant| #[trigger]
            old(router).sticky.shows(now) && ({
                let store = old(router).state().sticky.router.store;
                let session = session_results::session_of(*request);
                let entry = store.entries[session];
                step is Loads <==> {
                    &&& hot_binding is Some
                    &&& decision_results::is_movable_turn(*request, RequestPhase::Prefill)
                    &&& results::lives(store, session, now)
                    &&& store.atomic_rebind
                    &&& entry.worker == hot_binding->0.binding.worker
                    &&& entry.kind == hot_binding->0.binding.kind
                    &&& entry.revision == hot_binding->0.revision
                    &&& entry.pending_rebind is None
                    &&& decision_results::confirms_prefills(
                        configs@,
                        hot_binding->0.binding.worker.worker_id,
                    )
                }
            }),
        step is Loads ==> step->Loads_session_turn == turn && step->Loads_expected
            == hot_binding->0,
        step is Select <==> !(step is Loads),
        step is Select ==> step->Select_0 == turn,
        hot_binding is None ==> final(router).state() == old(router).state(),
        differ_in_bindings_only(old(router).state(), final(router).state()),
{
}

/// By the clock too, a cold rank is booked only by a decision that was due, and by a
/// plan that leaves no other choice, and the turn is handed on.
pub proof fn law_clocked_loads_known_result(
    router: &KvPushRouter,
    turn: Option<SessionTurnGuard>,
    request: &PreprocessedRequest,
    expected: AffinityBindingToken,
    configs: &HashMap<u64, WorkerRuntimeConfig>,
    loads: &Vec<PotentialLoad>,
    step: PrefillStep,
    h: int,
    c: int,
)
    requires
        call_ensures(
            KvPushRouter::loads_known,
            (router, turn, request, expected, configs, Some(loads)),
            step,
        ),
        decision_results::hot_and_coldest(
            decision_results::usable(configs@, loads@),
            expected,
            h,
            c,
        ),
    ensures
        exists|now: Instant| #[trigger]
            router.sticky.shows(now) && (step is SelectFinal <==> {
                &&& decision_results::is_movable_turn(*request, RequestPhase::Prefill)
                &&& decision_results::confirms_prefills(
                    configs@,
                    expected.binding.worker.worker_id,
                )
                &&& decision_results::is_rested(
                    router.sticky.state(),
                    router.config,
                    session_results::session_of(*request),
                    now,
                )
                &&& decision_results::load_calls(router.config, loads@[h], loads@[c])
            }),
        step is SelectFinal ==> {
            &&& step->SelectFinal_session_turn == turn
            &&& step->decision.session_id@ == session_results::session_of(*request)
            &&& step->decision.expected == expected
            &&& step->decision.cold.worker_id == loads@[c].worker_id
            &&& step->decision.cold.dp_rank == loads@[c].dp_rank
            &&& step->decision.ttl.secs == session_results::control(*request).timeout
            &&& step->plan.pinned_worker == Some(step->decision.cold)
            &&& !step->plan.is_query_only
            &&& !step->plan.allow_sticky_fallback
            &&& !step->plan.refresh_sticky
        },
        step is Select <==> !(step is SelectFinal),
        step is Select ==> step->Select_0 == turn,
{
    decision_results::lemma_usable(configs@, loads@);
    let marked = decision_results::usable(configs@, loads@);
    let hot_supported = decision_results::confirms_prefills(
        configs@,
        expected.binding.worker.worker_id,
    );
    decision_results::lemma_shedding(router.config, marked, expected, h, c);
    let now = choose|now: Instant| #[trigger]
        router.sticky.shows(now) && now.in_range()
            && crate::push_router::prefill::is_step_after_loads(
            step,
            router.state(),
            router.config,
            turn,
            *request,
            expected,
            configs@,
            loads@,
            now,
        );
    decision_results::lemma_due(
        router,
        *request,
        RequestPhase::Prefill,
        expected,
        hot_supported,
        marked,
        now,
        h,
        c,
    );
}

/// By the clock too, a shadow rebind starts only on the booked cold rank, with the
/// turn handed on, and a refused one gives its turn back.
pub proof fn law_clocked_start_shadow_result(
    router: &mut KvPushRouter,
    request_id: &str,
    turn: Option<SessionTurnGuard>,
    decision: &RebindDecision,
    chosen: WorkerSelection,
    revisions: &mut AffinityRevisions,
    started: Result<PrefillSelection, RefusedSelection>,
)
    requires
        call_ensures(
            KvPushRouter::start_shadow,
            (router, request_id, turn, decision, chosen, revisions),
            started,
        ),
    ensures
        started is Ok ==> {
            let prefill = started->Ok_0;
            &&& chosen.instance_id == decision.cold.worker_id
            &&& chosen.dp_rank == decision.cold.dp_rank
            &&& prefill.selection == chosen
            &&& prefill.session_turn == turn
            &&& prefill.pending_rebind is Some
            &&& prefill.pending_rebind->0.session() == decision.session_id@
            &&& exists|now: Instant| #[trigger]
                old(router).sticky.shows(now) && results::begins(
                    old(router).state().sticky.router,
                    final(router).state().sticky.router,
                    decision.session_id@,
                    decision.expected,
                    decision.cold,
                    decision.ttl,
                    old(revisions).next(),
                    final(revisions).next(),
                    now,
                    Some(prefill.pending_rebind->0.token()),
                )
            &&& final(router).state().sticky.turns == old(router).state().sticky.turns
            &&& final(router).state().recorded == old(router).state().recorded.push(
                RebindTransition::DecisionLoadImbalance,
            )
        },
        started is Err ==> {
            let refused = started->Err_0;
            let matches = chosen.instance_id == decision.cold.worker_id && chosen.dp_rank
                == decision.cold.dp_rank;
            &&& gate_results::gives_turn_back(old(router).state(), final(router).state(), turn)
            &&& final(revisions).next() == old(revisions).next()
            &&& !matches ==> is_mismatch(refused, request_id@, chosen, decision.cold)
            &&& matches ==> refused.error is SessionChanged && refused.free_booking
                == chosen.scheduler_tracked
        },
{
}

/// By the clock too, a prefill that cannot be tracked or prepared gives its rebind up
/// and its turn back; so does one that is aborted for any other reason.
pub proof fn law_abort_results(
    router: &mut KvPushRouter,
    pending: Option<SessionRebindGuard>,
    turn: Option<SessionTurnGuard>,
    reason: RebindTransition,
    now: Instant,
    second: &mut KvPushRouter,
    untracked: PrefillSelection,
    third: &mut KvPushRouter,
    unprepared: PrefillSelection,
)
    requires
        call_ensures(KvPushRouter::abort_prefill_at, (router, pending, turn, reason, now), ()),
        call_ensures(KvPushRouter::tracking_failed, (second, untracked), ()),
        call_ensures(KvPushRouter::prepare_failed, (third, unprepared), ()),
    ensures
        gate_results::ends_and_releases(
            old(router).state(),
            final(router).state(),
            gate_results::held(pending),
            turn,
            reason,
            now,
        ),
        exists|at: Instant| #[trigger]
            old(second).sticky.shows(at) && gate_results::ends_and_releases(
                old(second).state(),
                final(second).state(),
                gate_results::held(untracked.pending_rebind),
                untracked.session_turn,
                RebindTransition::AbortTrackingError,
                at,
            ),
        exists|at: Instant| #[trigger]
            old(third).sticky.shows(at) && gate_results::ends_and_releases(
                old(third).state(),
                final(third).state(),
                gate_results::held(unprepared.pending_rebind),
                unprepared.session_turn,
                RebindTransition::AbortPrepareError,
                at,
            ),
{
    lemma_given_up(old(router).state(), pending, reason, now);
    let at = choose|at: Instant| #[trigger]
        old(second).sticky.shows(at) && at.in_range() && final(second).state()
            == crate::push_router::prefill::turn_over(
            crate::push_router::prefill::gave_up(
                old(second).state(),
                untracked.pending_rebind,
                RebindTransition::AbortTrackingError,
                at,
            ),
            untracked.session_turn,
        );
    lemma_given_up(
        old(second).state(),
        untracked.pending_rebind,
        RebindTransition::AbortTrackingError,
        at,
    );
    let later = choose|at: Instant| #[trigger]
        old(third).sticky.shows(at) && at.in_range() && final(third).state()
            == crate::push_router::prefill::turn_over(
            crate::push_router::prefill::gave_up(
                old(third).state(),
                unprepared.pending_rebind,
                RebindTransition::AbortPrepareError,
                at,
            ),
            unprepared.session_turn,
        );
    lemma_given_up(
        old(third).state(),
        unprepared.pending_rebind,
        RebindTransition::AbortPrepareError,
        later,
    );
}

proof fn lemma_given_up(
    state: PushState,
    pending: Option<SessionRebindGuard>,
    reason: RebindTransition,
    now: Instant,
)
    ensures
        gate_results::ends(
            state,
            crate::push_router::prefill::gave_up(state, pending, reason, now),
            gate_results::held(pending),
            reason,
            now,
        ),
{
}

/// By the clock too, a choice extends affinity only for an ordinary turn that
/// followed its session and was booked.
pub proof fn law_clocked_selection_succeeded_result(
    router: &mut KvPushRouter,
    request: &PreprocessedRequest,
    phase: RequestPhase,
    plan: SelectionPlan,
)
    requires
        call_ensures(
            KvPushRouter::selection_succeeded,
            (router, request, phase, plan),
            (),
        ),
    ensures
        ({
            let extends = plan.refresh_sticky && plan.pinned_worker is Some && !plan.is_query_only
                && session_results::sticks(*request, phase) && !session_results::acts(*request);
            let store = old(router).state().sticky.router.store;
            let session = session_results::session_of(*request);
            &&& !extends ==> final(router).state() == old(router).state()
            &&& extends ==> exists|now: Instant| #[trigger]
                old(router).sticky.shows(now) && results::resolves(
                    old(router).state().sticky.router,
                    final(router).state().sticky.router,
                    session,
                    now,
                    if results::lives(store, session, now) {
                        Some(store.entries[session].worker)
                    } else {
                        None
                    },
                )
        }),
        differ_in_bindings_only(old(router).state(), final(router).state()),
{
}

/// By the clock too, a failed selection is reconsidered exactly if the plan allows it
/// and the live binding of the session is still to the rank that was pinned.
pub proof fn law_clocked_selection_failed_result(
    router: &mut KvPushRouter,
    request: &PreprocessedRequest,
    phase: RequestPhase,
    plan: SelectionPlan,
    next: FailedSelection,
)
    requires
        call_ensures(KvPushRouter::selection_failed, (router, request, phase, plan), next),
    ensures
        exists|now: Instant| #[trigger]
            old(router).sticky.shows(now) && ({
                let store = old(router).state().sticky.router.store;
                let session = session_results::session_of(*request);
                &&& next is Recheck <==> plan.allow_sticky_fallback && session_results::belongs(
                    *request,
                    phase,
                ) && results::lives(store, session, now) && plan.pinned_worker == Some(
                    store.entries[session].worker,
                )
                &&& next is Recheck ==> is_followed(
                    old(router).state(),
                    *request,
                    phase,
                    now,
                    Some(next->Recheck_0.token),
                )
            }),
        next is Recheck ==> next->Recheck_0.plan == plan,
        plan.is_query_only || next is Recheck ==> final(router).state() == old(router).state(),
        differ_in_bindings_only(old(router).state(), final(router).state()),
{
}

/// The rank of a selection is what its fields name; the blocks are the fewest that
/// hold the tokens; a new router has seen nothing and keeps its knobs; and direct
/// routing sends by what it was given.
pub proof fn law_small_results<P>(
    chosen: &WorkerSelection,
    rank: WorkerWithDpRank,
    tokens: usize,
    block_size: usize,
    blocks: usize,
    knobs: RebindConfig,
    router: KvPushRouter,
    inner: P,
    direct: DirectRoutingRouter<P>,
)
    requires
        block_size > 0,
        call_ensures(WorkerSelection::rank, (chosen,), rank),
        call_ensures(selection::input_blocks, (tokens, block_size), blocks),
        call_ensures(KvPushRouter::new, (knobs,), router),
        call_ensures(DirectRoutingRouter::<P>::new, (inner,), direct),
    ensures
        rank.worker_id == chosen.instance_id && rank.dp_rank == chosen.dp_rank,
        tokens <= blocks * block_size,
        (blocks - 1) * block_size < tokens,
        router.config == knobs,
        router.state().recorded.len() == 0,
        forall|session: Seq<char>| !router.state().sticky.turns.contains_key(session),
        forall|session: Seq<char>|
            !router.state().sticky.router.store.entries.contains_key(session),
        direct.inner == inner,
{
}

} // verus!
