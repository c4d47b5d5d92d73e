//! What the operations on a response give back.
//!
//! Each law takes one call of an operation and relates what came out to the fields
//! of the frame that came in, to what was pending and to the entries of the store.

use vstd::prelude::*;

use crate::protocols::{Annotated, FinishReason, LLMEngineOutput, PreprocessedRequest};
use crate::push_router::dispatch;
use crate::push_router::dispatch::{Dispatch, ResponseWatch, StreamStep};
use crate::push_router::gate;
use crate::push_router::gate::{GateState, RebindResponseGate, RebindStreamAction};
use crate::push_router::router::{KvPushRouter, PushState, RebindTransition};
use crate::push_router::selection::WorkerSelection;
use crate::sticky::coordinator::{
    SessionCloseAction, SessionRebindGuard, SessionRoutingResult, SessionTurnGuard,
};
use crate::sticky::results;
use crate::sticky::router::AffinityRebindToken;
use crate::time::Instant;

verus! {

/// The output says under the key `dynamo_prefill_complete` that the prefill is
/// complete.
pub open spec fn says_complete(output: LLMEngineOutput) -> bool {
    let members = crate::json::json_members(output.extra_args->0);
    &&& output.extra_args is Some
    &&& members.contains_key("dynamo_prefill_complete"@)
    &&& crate::json::json_boolean(members["dynamo_prefill_complete"@]) == Some(true)
}

/// The frame carries such an output.
pub open spec fn frame_says_complete(item: Annotated) -> bool {
    item.data is Some && says_complete(item.data->0)
}

/// A rebind has ended without being published: its shadow is gone, the reason is
/// recorded once, and nothing else changed.
pub open spec fn gives_up(
    before: PushState,
    after: PushState,
    session: Seq<char>,
    token: AffinityRebindToken,
    reason: RebindTransition,
    now: Instant,
) -> bool {
    &&& results::rolls_back(
        before.sticky.router,
        after.sticky.router,
        session,
        token,
        now,
        results::shadows(before.sticky.router.store, session, token),
    )
    &&& after.sticky.turns == before.sticky.turns
    &&& after.recorded == before.recorded.push(reason)
}

/// The engine says that it failed, or that it was cancelled.
pub open spec fn engine_failed(output: LLMEngineOutput) -> bool {
    output.finish_reason is Some && output.finish_reason->0 is Error
}

pub open spec fn engine_cancelled(output: LLMEngineOutput) -> bool {
    output.finish_reason is Some && output.finish_reason->0 is Cancelled
}

/// The frame leaves a pending rebind pending: it reports no failure and carries
/// either no data or an output that neither ends nor confirms the prefill.
pub open spec fn keeps_waiting(item: Annotated, complete: bool) -> bool {
    &&& !item.is_error
    &&& item.error is None
    &&& item.data is Some ==> !engine_failed(item.data->0) && !engine_cancelled(item.data->0)
        && !complete
}

/// What a frame does while no rebind is pending: nothing.
pub open spec fn passes_by(
    before: PushState,
    after: PushState,
    gate: GateState,
    gate_after: GateState,
    item: Annotated,
    complete: bool,
    action: RebindStreamAction,
) -> bool {
    &&& after == before
    &&& gate_after == gate
    &&& action is SuppressControlFrame <==> complete && item.data is Some && item.event is None
        && item.error is None
    &&& action is Forward <==> !(complete && item.data is Some && item.event is None
        && item.error is None)
}

/// What a frame does to a pending rebind.
pub open spec fn acts_on_rebind(
    before: PushState,
    after: PushState,
    gate: GateState,
    gate_after: GateState,
    item: Annotated,
    complete: bool,
    now: Instant,
    action: RebindStreamAction,
) -> bool {
    let (session, token) = gate.pending->0;
    let output = item.data->0;
    if item.is_error || item.error is Some {
        &&& action is RolledBack
        &&& action->RolledBack_0@ == "annotated_error"@
        &&& gate_after.pending is None
        &&& gives_up(before, after, session, token, RebindTransition::AbortAnnotatedError, now)
    } else if item.data is None {
        &&& action is Forward
        &&& gate_after == gate
        &&& after == before
    } else if engine_failed(output) {
        &&& action is ReplaceWithError
        &&& action->ReplaceWithError_0@ == "cold prefill failed before completion ACK: "@
            + output.finish_reason->0->Error_0@
        &&& gate_after.pending is None
        &&& gives_up(before, after, session, token, RebindTransition::AbortLlmError, now)
    } else if engine_cancelled(output) {
        &&& action is ReplaceWithError
        &&& action->ReplaceWithError_0@ == "cold prefill was cancelled before completion ACK"@
        &&& gate_after.pending is None
        &&& gives_up(before, after, session, token, RebindTransition::AbortCancelled, now)
    } else if complete && !gate.saw_bootstrap_data {
        &&& action is ReplaceWithError
        &&& action->ReplaceWithError_0@
            == "cold prefill completion ACK arrived before bootstrap data"@
        &&& gate_after.pending is None
        &&& gives_up(before, after, session, token, RebindTransition::AbortAckBeforeBootstrap, now)
    } else if complete {
        let current = results::shadows(before.sticky.router.store, session, token)
            && results::lives(before.sticky.router.store, session, now);
        &&& gate_after.pending is None
        &&& current ==> {
            &&& action is Committed
            &&& results::commits(
                before.sticky.router,
                after.sticky.router,
                session,
                token,
                now,
                true,
            )
            &&& after.sticky.turns == before.sticky.turns
            &&& after.recorded == before.recorded.push(
                RebindTransition::CommitPrefillCompleteAck,
            )
        }
        &&& !current ==> {
            &&& action is ReplaceWithError
            &&& action->ReplaceWithError_0@
                == "session affinity changed before cold prefill completion; refusing to overwrite concurrent affinity"@
            &&& gives_up(before, after, session, token, RebindTransition::AbortCasConflict, now)
        }
    } else {
        &&& action is Forward
        &&& gate_after.pending == gate.pending
        &&& gate_after.saw_bootstrap_data == (gate.saw_bootstrap_data
            || output.disaggregated_params is Some)
        &&& after == before
    }
}

/// What a frame does, whether a rebind is pending or not.
pub open spec fn observed(
    before: PushState,
    after: PushState,
    gate: GateState,
    gate_after: GateState,
    item: Annotated,
    complete: bool,
    now: Instant,
    action: RebindStreamAction,
) -> bool {
    &&& gate.pending is None ==> passes_by(
        before,
        after,
        gate,
        gate_after,
        item,
        complete,
        action,
    )
    &&& gate.pending is Some ==> acts_on_rebind(
        before,
        after,
        gate,
        gate_after,
        item,
        complete,
        now,
        action,
    )
}

/// The count of the pending session leaves room for one more.
pub open spec fn has_room(before: PushState, gate: GateState) -> bool {
    gate.pending is Some ==> before.sticky.router.rebinds((gate.pending->0).0) < u32::MAX
}

/// What a frame does whose confirmation is known.
pub proof fn law_observe_frame_result(
    gate: &mut RebindResponseGate,
    router: &mut KvPushRouter,
    item: &Annotated,
    complete: bool,
    now: Instant,
    action: RebindStreamAction,
)
    requires
        now.in_range(),
        has_room(old(router).state(), old(gate).state()),
        call_ensures(
            RebindResponseGate::observe_frame_at,
            (gate, router, item, complete, now),
            action,
        ),
    ensures
        observed(
            old(router).state(),
            final(router).state(),
            old(gate).state(),
            final(gate).state(),
            *item,
            complete,
            now,
            action,
        ),
        final(router).config == old(router).config,
{
}

/// What a frame does.
pub proof fn law_observe_result(
    gate: &mut RebindResponseGate,
    router: &mut KvPushRouter,
    item: &Annotated,
    now: Instant,
    action: RebindStreamAction,
)
    requires
        now.in_range(),
        has_room(old(router).state(), old(gate).state()),
        call_ensures(RebindResponseGate::observe_at, (gate, router, item, now), action),
    ensures
        observed(
            old(router).state(),
            final(router).state(),
            old(gate).state(),
            final(gate).state(),
            *item,
            frame_says_complete(*item),
            now,
            action,
        ),
        final(router).config == old(router).config,
{
}

/// What a frame does, as of a moment that the clock shows.
pub proof fn law_clocked_observe_result(
    gate: &mut RebindResponseGate,
    router: &mut KvPushRouter,
    item: &Annotated,
    action: RebindStreamAction,
)
    requires
        has_room(old(router).state(), old(gate).state()),
        call_ensures(RebindResponseGate::observe, (gate, router, item), action),
    ensures
        exists|now: Instant| #[trigger]
            old(router).sticky.shows(now) && observed(
                old(router).state(),
                final(router).state(),
                old(gate).state(),
                final(gate).state(),
                *item,
                frame_says_complete(*item),
                now,
                action,
            ),
        final(router).config == old(router).config,
{
}

/// The marker is found exactly where the output says that the prefill is complete.
pub proof fn law_marker_result(output: &LLMEngineOutput, complete: bool)
    requires
        call_ensures(gate::is_prefill_complete_marker, (output,), complete),
    ensures
        complete <==> says_complete(*output),
{
}

/// A pending rebind is given up for this reason; without one nothing changed.
pub open spec fn ends(
    before: PushState,
    after: PushState,
    gate: GateState,
    reason: RebindTransition,
    now: Instant,
) -> bool {
    &&& gate.pending is Some ==> gives_up(
        before,
        after,
        (gate.pending->0).0,
        (gate.pending->0).1,
        reason,
        now,
    )
    &&& gate.pending is None ==> after == before
}

/// A stream that ends while a rebind is pending is an error for the client, which
/// says whether bootstrap data had come.
pub proof fn law_finish_result(
    gate: &mut RebindResponseGate,
    router: &mut KvPushRouter,
    now: Instant,
    message: Option<String>,
)
    requires
        call_ensures(RebindResponseGate::finish_at, (gate, router, now), message),
    ensures
        message is Some <==> old(gate).state().pending is Some,
        message is Some && old(gate).state().saw_bootstrap_data ==> message->0@
            == "cold prefill stream ended without a completion ACK"@,
        message is Some && !old(gate).state().saw_bootstrap_data ==> message->0@
            == "cold prefill stream ended before bootstrap data or completion ACK"@,
        final(gate).state().pending is None,
        ends(
            old(router).state(),
            final(router).state(),
            old(gate).state(),
            RebindTransition::AbortMissingAck,
            now,
        ),
        final(router).config == old(router).config,
{
}

/// As of a moment that the clock shows.
pub proof fn law_clocked_finish_result(
    gate: &mut RebindResponseGate,
    router: &mut KvPushRouter,
    message: Option<String>,
)
    requires
        call_ensures(RebindResponseGate::finish, (gate, router), message),
    ensures
        message is Some <==> old(gate).state().pending is Some,
        message is Some && old(gate).state().saw_bootstrap_data ==> message->0@
            == "cold prefill stream ended without a completion ACK"@,
        message is Some && !old(gate).state().saw_bootstrap_data ==> message->0@
            == "cold prefill stream ended before bootstrap data or completion ACK"@,
        final(gate).state().pending is None,
        exists|now: Instant| #[trigger]
            old(router).sticky.shows(now) && ends(
                old(router).state(),
                final(router).state(),
                old(gate).state(),
                RebindTransition::AbortMissingAck,
                now,
            ),
        final(router).config == old(router).config,
{
}

/// A stopped request and a dropped stream give a pending rebind up, each under its
/// own name.
pub proof fn law_cancel_and_abandon_results(
    gate: &mut RebindResponseGate,
    router: &mut KvPushRouter,
    now: Instant,
    cancelled: bool,
    other: &mut RebindResponseGate,
    same: &mut KvPushRouter,
)
    requires
        call_ensures(RebindResponseGate::cancel_at, (gate, router, now), cancelled),
        call_ensures(RebindResponseGate::abandon_at, (other, same, now), ()),
    ensures
        cancelled <==> old(gate).state().pending is Some,
        final(gate).state().pending is None,
        ends(
            old(router).state(),
            final(router).state(),
            old(gate).state(),
            RebindTransition::AbortContextStopped,
            now,
        ),
        final(other).state().pending is None,
        ends(
            old(same).state(),
            final(same).state(),
            old(other).state(),
            RebindTransition::AbortStreamDropped,
            now,
        ),
        final(router).config == old(router).config,
        final(same).config == old(same).config,
{
}

/// A new gate waits for the rebind that it was given, and has seen nothing.
pub proof fn law_new_gate_result(pending: Option<SessionRebindGuard>, gate: RebindResponseGate)
    requires
        call_ensures(RebindResponseGate::new, (pending,), gate),
    ensures
        gate.state().pending is Some <==> pending is Some,
        pending is Some ==> gate.state().pending->0 == (pending->0.session(), pending->0.token()),
        !gate.state().saw_bootstrap_data,
{
}

/// The frame is an error frame with this message.
pub open spec fn is_error_frame(frame: Annotated, message: Seq<char>) -> bool {
    &&& frame.data is None
    &&& frame.is_error
    &&& frame.error is Some
    &&& frame.error->0@ == message
}

/// Where no rebind is pending, every frame reaches the client as it came, in data,
/// event, annotation and error, except a confirmation, which is held back.
pub proof fn law_frames_pass_unchanged(
    watch: &mut ResponseWatch,
    router: &mut KvPushRouter,
    item: Annotated,
    now: Instant,
    step: StreamStep,
)
    requires
        now.in_range(),
        old(watch).gate.state().pending is None,
        call_ensures(ResponseWatch::on_item_at, (watch, router, item, now), step),
    ensures
        step is Skip <==> frame_says_complete(item) && item.event is None && item.error is None,
        !(step is Skip) ==> step == StreamStep::Yield(item),
        final(router).state() == old(router).state(),
        final(watch).gate.state() == old(watch).gate.state(),
        final(watch).session_turn == old(watch).session_turn,
{
}

/// While a rebind is pending, a frame that leaves it pending and a frame that
/// reports a failure reach the client as they came; a confirmation is held back if
/// it publishes the rebind; and a frame that fails the rebind otherwise is replaced
/// by an error, after which nothing more of the response is taken.
pub proof fn law_frames_during_a_rebind(
    watch: &mut ResponseWatch,
    router: &mut KvPushRouter,
    item: Annotated,
    now: Instant,
    step: StreamStep,
)
    requires
        now.in_range(),
        has_room(old(router).state(), old(watch).gate.state()),
        old(watch).gate.state().pending is Some,
        call_ensures(ResponseWatch::on_item_at, (watch, router, item, now), step),
    ensures
        item.is_error || item.error is Some ==> step == StreamStep::Yield(item),
        keeps_waiting(item, frame_says_complete(item)) ==> step == StreamStep::Yield(item),
        !item.is_error && item.error is None && !keeps_waiting(item, frame_says_complete(item))
            ==> {
            let (session, token) = old(watch).gate.state().pending->0;
            let store = old(router).state().sticky.router.store;
            let output = item.data->0;
            if engine_failed(output) {
                step is Last && is_error_frame(
                    step->Last_0,
                    "cold prefill failed before completion ACK: "@
                        + output.finish_reason->0->Error_0@,
                )
            } else if engine_cancelled(output) {
                step is Last && is_error_frame(
                    step->Last_0,
                    "cold prefill was cancelled before completion ACK"@,
                )
            } else if !old(watch).gate.state().saw_bootstrap_data {
                step is Last && is_error_frame(
                    step->Last_0,
                    "cold prefill completion ACK arrived before bootstrap data"@,
                )
            } else if results::shadows(store, session, token) && results::lives(
                store,
                session,
                now,
            ) {
                step is Skip
            } else {
                step is Last && is_error_frame(
                    step->Last_0,
                    "session affinity changed before cold prefill completion; refusing to overwrite concurrent affinity"@,
                )
            }
        },
        final(watch).session_turn == old(watch).session_turn,
{
}

/// What a frame does to the router does not depend on who hands it on.
pub proof fn law_watch_observes_like_the_response_gate(
    watch: &mut ResponseWatch,
    router: &mut KvPushRouter,
    item: Annotated,
    now: Instant,
    step: StreamStep,
)
    requires
        now.in_range(),
        has_room(old(router).state(), old(watch).gate.state()),
        call_ensures(ResponseWatch::on_item_at, (watch, router, item, now), step),
    ensures
        exists|action: RebindStreamAction| #[trigger]
            observed(
                old(router).state(),
                final(router).state(),
                old(watch).gate.state(),
                final(watch).gate.state(),
                item,
                frame_says_complete(item),
                now,
                action,
            ),
        final(router).config == old(router).config,
{
    let action = choose|action: RebindStreamAction| #[trigger]
        old(watch).gate.state().answers(
            old(router).state(),
            item,
            gate::confirms(item),
            now,
            action,
        ) && dispatch::carries_out(step, item, action);
    assert(observed(
        old(router).state(),
        final(router).state(),
        old(watch).gate.state(),
        final(watch).gate.state(),
        item,
        frame_says_complete(item),
        now,
        action,
    ));
}

/// The turn is given back, if it was held, and nothing else changed.
pub open spec fn gives_turn_back(
    before: PushState,
    after: PushState,
    turn: Option<SessionTurnGuard>,
) -> bool {
    &&& after.recorded == before.recorded
    &&& after.sticky.router == before.sticky.router
    &&& forall|session: Seq<char>| #[trigger]
        after.sticky.turns.contains_key(session) <==> before.sticky.turns.contains_key(session)
            && !(turn is Some && session == turn->0.session() && before.sticky.turns[session]
            == turn->0.owner())
    &&& forall|session: Seq<char>| #[trigger]
        after.sticky.turns.contains_key(session) ==> after.sticky.turns[session]
            == before.sticky.turns[session]
}

/// A pending rebind is given up under this name and the turn is given back.
pub open spec fn ends_and_releases(
    before: PushState,
    after: PushState,
    gate: GateState,
    turn: Option<SessionTurnGuard>,
    reason: RebindTransition,
    now: Instant,
) -> bool {
    exists|between: PushState| #[trigger]
        ends(before, between, gate, reason, now) && gives_turn_back(between, after, turn)
}

/// When no more of a response is taken, a rebind that is still pending is given up
/// with an error for the client, and the turn is given back.
pub proof fn law_watch_finish_result(
    watch: ResponseWatch,
    router: &mut KvPushRouter,
    now: Instant,
    last: Option<Annotated>,
)
    requires
        call_ensures(ResponseWatch::finish_at, (watch, router, now), last),
    ensures
        last is Some <==> watch.gate.state().pending is Some,
        last is Some ==> is_error_frame(
            last->0,
            if watch.gate.state().saw_bootstrap_data {
                "cold prefill stream ended without a completion ACK"@
            } else {
                "cold prefill stream ended before bootstrap data or completion ACK"@
            },
        ),
        ends_and_releases(
            old(router).state(),
            final(router).state(),
            watch.gate.state(),
            watch.session_turn,
            RebindTransition::AbortMissingAck,
            now,
        ),
        final(router).config == old(router).config,
{
    assert(ends(
        old(router).state(),
        watch.gate.state().given_up(
            old(router).state(),
            RebindTransition::AbortMissingAck,
            now,
        ),
        watch.gate.state(),
        RebindTransition::AbortMissingAck,
        now,
    ));
}

/// A response that is dropped gives its rebind up and its turn back.
pub proof fn law_watch_drop_result(watch: ResponseWatch, router: &mut KvPushRouter, now: Instant)
    requires
        call_ensures(ResponseWatch::drop_at, (watch, router, now), ()),
    ensures
        ends_and_releases(
            old(router).state(),
            final(router).state(),
            watch.gate.state(),
            watch.session_turn,
            RebindTransition::AbortStreamDropped,
            now,
        ),
        final(router).config == old(router).config,
{
    assert(ends(
        old(router).state(),
        watch.gate.state().given_up(
            old(router).state(),
            RebindTransition::AbortStreamDropped,
            now,
        ),
        watch.gate.state(),
        RebindTransition::AbortStreamDropped,
        now,
    ));
}

/// A stopped request gives its rebind up and keeps its turn for the end of the
/// response.
pub proof fn law_watch_stopped_result(
    watch: &mut ResponseWatch,
    router: &mut KvPushRouter,
    now: Instant,
    cancelled: bool,
)
    requires
        call_ensures(ResponseWatch::on_stopped_at, (watch, router, now), cancelled),
    ensures
        cancelled <==> old(watch).gate.state().pending is Some,
        final(watch).gate.state().pending is None,
        final(watch).session_turn == old(watch).session_turn,
        ends(
            old(router).state(),
            final(router).state(),
            old(watch).gate.state(),
            RebindTransition::AbortContextStopped,
            now,
        ),
        final(router).config == old(router).config,
{
}

/// Naming the rank in a request changes the rank and nothing else: the tokens, the
/// phase, the query annotation, the migration directive and every other hint go
/// along as they are.
pub proof fn law_pin_dp_rank_result(request: &mut PreprocessedRequest, dp_rank: u32)
    requires
        call_ensures(dispatch::pin_dp_rank, (request, dp_rank), ()),
    ensures
        is_pinned_copy(*old(request), *final(request), dp_rank),
{
}

/// `sent` is `given` with the rank named, and otherwise the same.
pub open spec fn is_pinned_copy(
    given: PreprocessedRequest,
    sent: PreprocessedRequest,
    dp_rank: u32,
) -> bool {
    &&& sent.token_ids == given.token_ids
    &&& sent.tracker_phase == given.tracker_phase
    &&& sent.query_instance_id == given.query_instance_id
    &&& sent.migrate_from == given.migrate_from
    &&& sent.routing is Some
    &&& sent.routing->0.dp_rank == Some(dp_rank)
    &&& given.routing is Some ==> {
        &&& sent.routing->0.session_control == given.routing->0.session_control
        &&& sent.routing->0.prefill_worker_id == given.routing->0.prefill_worker_id
        &&& sent.routing->0.prefill_dp_rank == given.routing->0.prefill_dp_rank
        &&& sent.routing->0.decode_worker_id == given.routing->0.decode_worker_id
        &&& sent.routing->0.backend_instance_id == given.routing->0.backend_instance_id
        &&& sent.routing->0.lora_name == given.routing->0.lora_name
    }
    &&& given.routing is None ==> {
        &&& sent.routing->0.session_control is None
        &&& sent.routing->0.prefill_worker_id is None
        &&& sent.routing->0.prefill_dp_rank is None
        &&& sent.routing->0.decode_worker_id is None
        &&& sent.routing->0.backend_instance_id is None
        &&& sent.routing->0.lora_name is None
    }
}

/// A request that was routed is sent to the selected rank with all that it carries,
/// and what is held for its session is held on, with the way to undo the routing.
pub proof fn law_routed_result(
    dispatch: &mut Dispatch,
    request: &mut PreprocessedRequest,
    selection: &WorkerSelection,
    outcome: SessionRoutingResult,
    deferred_close: Option<SessionCloseAction>,
)
    requires
        call_ensures(
            Dispatch::routed,
            (dispatch, request, selection, outcome),
            deferred_close,
        ),
    ensures
        is_pinned_copy(*old(request), *final(request), selection.dp_rank),
        deferred_close == outcome.deferred_close,
        final(dispatch).rollback == outcome.rollback,
        final(dispatch).pending_rebind == old(dispatch).pending_rebind,
        final(dispatch).session_turn == old(dispatch).session_turn,
        final(dispatch).exact == old(dispatch).exact,
{
}

/// A prefill goes to its worker and no other with what is held for its session; any
/// other request holds nothing.
pub proof fn law_new_dispatch_results(
    pending: Option<SessionRebindGuard>,
    turn: Option<SessionTurnGuard>,
    prefill: Dispatch,
    plain: Dispatch,
)
    requires
        call_ensures(Dispatch::prefill, (pending, turn), prefill),
        call_ensures(Dispatch::plain, (), plain),
    ensures
        prefill.exact,
        prefill.pending_rebind == pending,
        prefill.session_turn == turn,
        prefill.rollback is None,
        !plain.exact,
        plain.pending_rebind is None,
        plain.session_turn is None,
        plain.rollback is None,
{
}

/// A request that reached its worker is watched over with the rebind and the turn
/// that were held for it.
pub proof fn law_dispatched_result(dispatch: Dispatch, watch: ResponseWatch)
    requires
        call_ensures(Dispatch::dispatched, (dispatch,), watch),
    ensures
        watch.session_turn == dispatch.session_turn,
        watch.gate.state().pending is Some <==> dispatch.pending_rebind is Some,
        dispatch.pending_rebind is Some ==> watch.gate.state().pending->0 == (
            dispatch.pending_rebind->0.session(),
            dispatch.pending_rebind->0.token(),
        ),
        !watch.gate.state().saw_bootstrap_data,
{
}

/// What holds the rebind of a guard, as a response gate would.
pub open spec fn held(pending: Option<SessionRebindGuard>) -> GateState {
    GateState {
        pending: match pending {
            Some(guard) => Some((guard.session(), guard.token())),
            None => None,
        },
        saw_bootstrap_data: false,
    }
}

/// A request that could not be routed gives its rebind up and its turn back.
pub proof fn law_route_failed_result(dispatch: Dispatch, router: &mut KvPushRouter, now: Instant)
    requires
        call_ensures(Dispatch::route_failed_at, (dispatch, router, now), ()),
    ensures
        ends_and_releases(
            old(router).state(),
            final(router).state(),
            held(dispatch.pending_rebind),
            dispatch.session_turn,
            RebindTransition::AbortRouteError,
            now,
        ),
        final(router).config == old(router).config,
{
    assert(ends(
        old(router).state(),
        crate::push_router::prefill::gave_up(
            old(router).state(),
            dispatch.pending_rebind,
            RebindTransition::AbortRouteError,
            now,
        ),
        held(dispatch.pending_rebind),
        RebindTransition::AbortRouteError,
        now,
    ));
}

/// A request that did not reach its worker has its routing undone, by exactly the
/// binding that the routing made, and then gives its rebind up and its turn back.
/// The session that the routing opened is to be closed.
pub proof fn law_dispatch_failed_result(
    dispatch: Dispatch,
    router: &mut KvPushRouter,
    now: Instant,
    close: Option<SessionCloseAction>,
)
    requires
        call_ensures(Dispatch::dispatch_failed_at, (dispatch, router, now), close),
    ensures
        close is Some <==> dispatch.rollback is Some && dispatch.rollback->0.closes() is Some,
        close is Some ==> dispatch.rollback->0.closes()->0 == (
            close->0.session_id@,
            close->0.worker_id,
        ),
        dispatch.rollback is None ==> ends_and_releases(
            old(router).state(),
            final(router).state(),
            held(dispatch.pending_rebind),
            dispatch.session_turn,
            RebindTransition::AbortDispatchError,
            now,
        ),
        dispatch.rollback is Some ==> exists|undone: PushState|
            #![trigger ends_and_releases(
                undone,
                final(router).state(),
                held(dispatch.pending_rebind),
                dispatch.session_turn,
                RebindTransition::AbortDispatchError,
                now,
            )]
            results::unbinds_if(
                old(router).state().sticky.router,
                undone.sticky.router,
                dispatch.rollback->0.session(),
                dispatch.rollback->0.token(),
                old(router).state().sticky.router.store.holds(
                    dispatch.rollback->0.session(),
                    dispatch.rollback->0.token(),
                ),
            ) && undone.sticky.turns == old(router).state().sticky.turns && undone.recorded == old(
                router,
            ).state().recorded && ends_and_releases(
                undone,
                final(router).state(),
                held(dispatch.pending_rebind),
                dispatch.session_turn,
                RebindTransition::AbortDispatchError,
                now,
            ),
        final(router).config == old(router).config,
{
    let undone = dispatch::routing_undone(old(router).state(), dispatch.rollback);
    assert(ends(
        undone,
        crate::push_router::prefill::gave_up(
            undone,
            dispatch.pending_rebind,
            RebindTransition::AbortDispatchError,
            now,
        ),
        held(dispatch.pending_rebind),
        RebindTransition::AbortDispatchError,
        now,
    ));
    assert(ends_and_releases(
        undone,
        final(router).state(),
        held(dispatch.pending_rebind),
        dispatch.session_turn,
        RebindTransition::AbortDispatchError,
        now,
    ));
}

/// Stopping and dropping by the clock happen as of a moment that it shows.
pub proof fn law_clocked_cancel_and_abandon_results(
    gate: &mut RebindResponseGate,
    router: &mut KvPushRouter,
    cancelled: bool,
    other: &mut RebindResponseGate,
    same: &mut KvPushRouter,
)
    requires
        call_ensures(RebindResponseGate::cancel, (gate, router), cancelled),
        call_ensures(RebindResponseGate::abandon, (other, same), ()),
    ensures
        cancelled <==> old(gate).state().pending is Some,
        final(gate).state().pending is None,
        exists|now: Instant| #[trigger]
            old(router).sticky.shows(now) && ends(
                old(router).state(),
                final(router).state(),
                old(gate).state(),
                RebindTransition::AbortContextStopped,
                now,
            ),
        final(other).state().pending is None,
        exists|now: Instant| #[trigger]
            old(same).sticky.shows(now) && ends(
                old(same).state(),
                final(same).state(),
                old(other).state(),
                RebindTransition::AbortStreamDropped,
                now,
            ),
{
}

/// By the clock too, frames pass unchanged where no rebind is pending.
pub proof fn law_clocked_frames_pass_unchanged(
    watch: &mut ResponseWatch,
    router: &mut KvPushRouter,
    item: Annotated,
    step: StreamStep,
)
    requires
        old(watch).gate.state().pending is None,
        call_ensures(ResponseWatch::on_item, (watch, router, item), step),
    ensures
        step is Skip <==> frame_says_complete(item) && item.event is None && item.error is None,
        !(step is Skip) ==> step == StreamStep::Yield(item),
        final(router).state() == old(router).state(),
        final(watch).gate.state() == old(watch).gate.state(),
        final(watch).session_turn == old(watch).session_turn,
{
}

/// By the clock too, a frame that leaves a rebind pending and one that reports a
/// failure pass unchanged, and a frame does to the router what it does as of a
/// moment that the clock shows.
pub proof fn law_clocked_frames_during_a_rebind(
    watch: &mut ResponseWatch,
    router: &mut KvPushRouter,
    item: Annotated,
    step: StreamStep,
)
    requires
        has_room(old(router).state(), old(watch).gate.state()),
        old(watch).gate.state().pending is Some,
        call_ensures(ResponseWatch::on_item, (watch, router, item), step),
    ensures
        item.is_error || item.error is Some ==> step == StreamStep::Yield(item),
        keeps_waiting(item, frame_says_complete(item)) ==> step == StreamStep::Yield(item),
        !item.is_error && item.error is None && !keeps_waiting(item, frame_says_complete(item))
            ==> step is Skip || (step is Last && step->Last_0.is_error && step->Last_0.data is None
            && step->Last_0.error is Some),
        final(watch).session_turn == old(watch).session_turn,
        exists|now: Instant, action: RebindStreamAction|
            #![trigger old(router).sticky.shows(now), observed(
                old(router).state(),
                final(router).state(),
                old(watch).gate.state(),
                final(watch).gate.state(),
                item,
                frame_says_complete(item),
                now,
                action,
            )]
            old(router).sticky.shows(now) && observed(
                old(router).state(),
                final(router).state(),
                old(watch).gate.state(),
                final(watch).gate.state(),
                item,
                frame_says_complete(item),
                now,
                action,
            ) && (step is Skip <==> action is Committed) && (step is Last
                <==> action is ReplaceWithError) && (step is Last ==> step->Last_0.error->0@
                == action->ReplaceWithError_0@),
{
    let (now, action) = choose|now: Instant, action: RebindStreamAction|
        old(router).sticky.shows(now) && now.in_range() && #[trigger]
        old(watch).gate.state().answers(
            old(router).state(),
            item,
            gate::confirms(item),
            now,
            action,
        ) && dispatch::carries_out(step, item, action) && final(router).state() == old(
            watch,
        ).gate.state().routes_on(old(router).state(), item, gate::confirms(item), now);
    assert(observed(
        old(router).state(),
        final(router).state(),
        old(watch).gate.state(),
        final(watch).gate.state(),
        item,
        frame_says_complete(item),
        now,
        action,
    ));
}

/// By the clock too, the end of a response settles its rebind and gives its turn
/// back.
pub proof fn law_clocked_watch_finish_result(
    watch: ResponseWatch,
    router: &mut KvPushRouter,
    last: Option<Annotated>,
)
    requires
        call_ensures(ResponseWatch::finish, (watch, router), last),
    ensures
        last is Some <==> watch.gate.state().pending is Some,
        last is Some ==> is_error_frame(
            last->0,
            if watch.gate.state().saw_bootstrap_data {
                "cold prefill stream ended without a completion ACK"@
            } else {
                "cold prefill stream ended before bootstrap data or completion ACK"@
            },
        ),
        exists|now: Instant| #[trigger]
            old(router).sticky.shows(now) && ends_and_releases(
                old(router).state(),
                final(router).state(),
                watch.gate.state(),
                watch.session_turn,
                RebindTransition::AbortMissingAck,
                now,
            ),
{
    let now = choose|now: Instant| #[trigger]
        old(router).sticky.shows(now) && now.in_range() && final(router).state()
            == crate::push_router::prefill::turn_over(
            watch.gate.state().given_up(
                old(router).state(),
                RebindTransition::AbortMissingAck,
                now,
            ),
            watch.session_turn,
        );
    assert(ends(
        old(router).state(),
        watch.gate.state().given_up(old(router).state(), RebindTransition::AbortMissingAck, now),
        watch.gate.state(),
        RebindTransition::AbortMissingAck,
        now,
    ));
}

/// By the clock too, a dropped response gives its rebind up and its turn back, and a
/// stopped request gives its rebind up.
pub proof fn law_clocked_watch_drop_and_stop_results(
    watch: ResponseWatch,
    router: &mut KvPushRouter,
    stopped: &mut ResponseWatch,
    other: &mut KvPushRouter,
    cancelled: bool,
)
    requires
        call_ensures(ResponseWatch::dropped, (watch, router), ()),
        call_ensures(ResponseWatch::on_stopped, (stopped, other), cancelled),
    ensures
        exists|now: Instant| #[trigger]
            old(router).sticky.shows(now) && ends_and_releases(
                old(router).state(),
                final(router).state(),
                watch.gate.state(),
                watch.session_turn,
                RebindTransition::AbortStreamDropped,
                now,
            ),
        cancelled <==> old(stopped).gate.state().pending is Some,
        final(stopped).gate.state().pending is None,
        final(stopped).session_turn == old(stopped).session_turn,
        exists|now: Instant| #[trigger]
            old(other).sticky.shows(now) && ends(
                old(other).state(),
                final(other).state(),
                old(stopped).gate.state(),
                RebindTransition::AbortContextStopped,
                now,
            ),
{
    let now = choose|now: Instant| #[trigger]
        old(router).sticky.shows(now) && now.in_range() && final(router).state()
            == crate::push_router::prefill::turn_over(
            watch.gate.state().given_up(
                old(router).state(),
                RebindTransition::AbortStreamDropped,
                now,
            ),
            watch.session_turn,
        );
    assert(ends(
        old(router).state(),
        watch.gate.state().given_up(
            old(router).state(),
            RebindTransition::AbortStreamDropped,
            now,
        ),
        watch.gate.state(),
        RebindTransition::AbortStreamDropped,
        now,
    ));
}

/// By the clock too, a request that could not be routed gives its rebind up and its
/// turn back.
pub proof fn law_clocked_route_failed_result(dispatch: Dispatch, router: &mut KvPushRouter)
    requires
        call_ensures(Dispatch::route_failed, (dispatch, router), ()),
    ensures
        exists|now: Instant| #[trigger]
            old(router).sticky.shows(now) && ends_and_releases(
                old(router).state(),
                final(router).state(),
                held(dispatch.pending_rebind),
                dispatch.session_turn,
                RebindTransition::AbortRouteError,
                now,
            ),
{
    let now = choose|now: Instant| #[trigger]
        old(router).sticky.shows(now) && now.in_range() && final(router).state()
            == crate::push_router::prefill::turn_over(
            crate::push_router::prefill::gave_up(
                old(router).state(),
                dispatch.pending_rebind,
                RebindTransition::AbortRouteError,
                now,
            ),
            dispatch.session_turn,
        );
    assert(ends(
        old(router).state(),
        crate::push_router::prefill::gave_up(
            old(router).state(),
            dispatch.pending_rebind,
            RebindTransition::AbortRouteError,
            now,
        ),
        held(dispatch.pending_rebind),
        RebindTransition::AbortRouteError,
        now,
    ));
}

/// By the clock too, a failed dispatch of a request without a routing to undo gives
/// its rebind up and its turn back, and one with a routing to undo leaves no trace of
/// the binding that the routing made.
pub proof fn law_clocked_dispatch_failed_result(
    dispatch: Dispatch,
    router: &mut KvPushRouter,
    close: Option<SessionCloseAction>,
)
    requires
        call_ensures(Dispatch::dispatch_failed, (dispatch, router), close),
    ensures
        close is Some <==> dispatch.rollback is Some && dispatch.rollback->0.closes() is Some,
        close is Some ==> dispatch.rollback->0.closes()->0 == (
            close->0.session_id@,
            close->0.worker_id,
        ),
        dispatch.rollback is None ==> exists|now: Instant| #[trigger]
            old(router).sticky.shows(now) && ends_and_releases(
                old(router).state(),
                final(router).state(),
                held(dispatch.pending_rebind),
                dispatch.session_turn,
                RebindTransition::AbortDispatchError,
                now,
            ),
        dispatch.rollback is Some && old(router).state().sticky.router.store.holds(
            dispatch.rollback->0.session(),
            dispatch.rollback->0.token(),
        ) ==> !final(router).state().sticky.router.store.entries.contains_key(
            dispatch.rollback->0.session(),
        ),
{
    let now = choose|now: Instant| #[trigger]
        old(router).sticky.shows(now) && now.in_range() && final(router).state()
            == crate::push_router::prefill::turn_over(
            crate::push_router::prefill::gave_up(
                dispatch::routing_undone(old(router).state(), dispatch.rollback),
                dispatch.pending_rebind,
                RebindTransition::AbortDispatchError,
                now,
            ),
            dispatch.session_turn,
        );
    assert(ends(
        dispatch::routing_undone(old(router).state(), dispatch.rollback),
        crate::push_router::prefill::gave_up(
            dispatch::routing_undone(old(router).state(), dispatch.rollback),
            dispatch.pending_rebind,
            RebindTransition::AbortDispatchError,
            now,
        ),
        held(dispatch.pending_rebind),
        RebindTransition::AbortDispatchError,
        now,
    ));
}

/// A gate may take a frame as long as the count of its session has room.
pub proof fn law_gate_countable_result(gate: &RebindResponseGate, router: &KvPushRouter, room: bool)
    requires
        call_ensures(RebindResponseGate::is_countable, (gate, router), room),
    ensures
        room <==> gate.state().pending is None || !router.sticky.state().router.rebind_counts.contains_key((gate.state().pending->0).0)
            || router.sticky.state().router.rebind_counts[(gate.state().pending->0).0]
            < 4294967295,
{
}

} // verus!
