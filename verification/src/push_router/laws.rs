//! What holds of shadow rebinds, from the decision to the end of the response.

use vstd::prelude::*;

use crate::protocols::{Annotated, PreprocessedRequest, RequestPhase, WorkerWithDpRank};
use crate::push_router::config::RebindConfig;
use crate::push_router::decision;
use crate::push_router::decision::{PotentialLoad, RebindDecision};
use crate::push_router::gate::{GateState, RebindStreamAction};
use crate::push_router::prefill;
use crate::push_router::router::{PushState, RebindTransition};
use crate::push_router::selection;
use crate::push_router::selection::{BindingRecheck, FailedSelection, SelectionPlan};
use crate::sticky::coordinator::{SessionRebindGuard, SessionTurnGuard};
use crate::sticky::laws::law_abandoned_rebind_restores_bindings;
use crate::sticky::router::{AffinityBindingToken, AffinityKind};
use crate::sticky::state::{AffinityState, RouterState};
use crate::time::{Duration, Instant};

verus! {

/// Every lookup of every session answers the same in both states.
pub open spec fn same_bindings(before: PushState, after: PushState) -> bool {
    forall|session: Seq<char>, now: Instant| #[trigger]
        after.sticky.router.store.visible(session, now) == before.sticky.router.store.visible(
            session,
            now,
        )
}

/// The cold target becomes visible only by a frame that confirms the prefill:
/// any other frame, and the end of the stream, leave every lookup as it was.
pub proof fn law_cold_target_stays_hidden_until_confirmation(
    gate: GateState,
    router: PushState,
    item: Annotated,
    complete: bool,
    reason: RebindTransition,
    now: Instant,
)
    ensures
        !(gate.meaning(item, complete) is Completion && gate.current(router, now))
            ==> same_bindings(router, gate.routes_on(router, item, complete, now)),
        same_bindings(router, gate.given_up(router, reason, now)),
{
}

/// A rebind is published only by a frame that reports no failure, confirms the
/// prefill, and comes after bootstrap data; and bootstrap data has come only
/// where a frame carried some.
pub proof fn law_publication_needs_bootstrap_and_confirmation(
    gate: GateState,
    item: Annotated,
    complete: bool,
)
    ensures
        gate.meaning(item, complete) is Completion ==> {
            &&& gate.pending is Some
            &&& gate.saw_bootstrap_data
            &&& complete
            &&& !item.spec_fails()
            &&& item.data matches Some(output)
            &&& output.finish_reason matches Some(finish) ==> finish is Completed
        },
        gate.after(item, complete).saw_bootstrap_data && !gate.saw_bootstrap_data ==> {
            &&& item.data matches Some(output)
            &&& output.disaggregated_params is Some
            &&& !item.spec_fails()
        },
{
}

/// A confirmation in time publishes the pending binding, with exactly one
/// record of it.
pub proof fn law_confirmation_publishes(
    gate: GateState,
    router: PushState,
    item: Annotated,
    complete: bool,
    now: Instant,
)
    requires
        gate.meaning(item, complete) is Completion,
        gate.current(router, now),
    ensures
        ({
            let (session, token) = gate.pending->0;
            let after = gate.routes_on(router, item, complete, now);
            &&& after.sticky.router.store.entries[session].spec_token() == token.pending
            &&& after.recorded == router.recorded.push(RebindTransition::CommitPrefillCompleteAck)
            &&& gate.after(item, complete).pending is None
        }),
{
}

/// Once a rebind has ended, nothing that comes later changes the router: a late
/// error does not undo a publication.
pub proof fn law_ended_rebind_stays_ended(
    gate: GateState,
    router: PushState,
    item: Annotated,
    complete: bool,
    reason: RebindTransition,
    now: Instant,
)
    requires
        gate.pending is None,
    ensures
        gate.after(item, complete).pending is None,
        gate.routes_on(router, item, complete, now) == router,
        gate.given_up(router, reason, now) == router,
{
}

/// Every pending rebind ends exactly once and is recorded exactly once: a frame
/// records one transition if it ends the rebind and none otherwise, and giving
/// up records one if the rebind was still pending.
pub proof fn law_rebind_is_recorded_once(
    gate: GateState,
    router: PushState,
    item: Annotated,
    complete: bool,
    reason: RebindTransition,
    now: Instant,
)
    ensures
        ({
            let ended = gate.pending is Some && gate.after(item, complete).pending is None;
            gate.routes_on(router, item, complete, now).recorded.len() == router.recorded.len()
                + if ended {
                1nat
            } else {
                0nat
            }
        }),
        gate.given_up(router, reason, now).recorded == if gate.pending is Some {
            router.recorded.push(reason)
        } else {
            router.recorded
        },
        gate.settled().pending is None,
{
}

/// A binding that was made while the rebind was pending wins: the confirmation
/// finds the rebind outdated, and the newer binding stays.
pub proof fn law_concurrent_bind_survives_the_confirmation(
    gate: GateState,
    router: PushState,
    worker: WorkerWithDpRank,
    ttl: Duration,
    kind: AffinityKind,
    revision: u64,
    bound_at: Instant,
    item: Annotated,
    now: Instant,
)
    requires
        gate.pending is Some,
    ensures
        ({
            let (session, token) = gate.pending->0;
            let bound = router.with_sticky(
                router.sticky.with_store(
                    router.sticky.router.store.put(session, worker, ttl, kind, revision, bound_at),
                ),
            );
            &&& !gate.current(bound, now)
            &&& same_bindings(bound, gate.routes_on(bound, item, true, now))
        }),
{
}

/// A rebind that ends without a confirmation leaves all bindings as they were
/// before it began.
pub proof fn law_given_up_rebind_restores_bindings(
    router: PushState,
    decision: RebindDecision,
    gate: GateState,
    reason: RebindTransition,
    revision: u64,
    begun_at: Instant,
    now: Instant,
)
    requires
        prefill::can_shadow(router, decision, begun_at),
        gate.pending == Some(
            (
                decision.session_id@,
                AffinityState::rebind_token(decision.expected, decision.cold, revision),
            ),
        ),
    ensures
        ({
            let begun = prefill::shadowed(router, decision, revision, begun_at);
            let after = gate.given_up(begun, reason, now);
            &&& after.sticky.router.store == router.sticky.router.store
            &&& after.sticky.router.rebind_counts == router.sticky.router.rebind_counts
            &&& after.sticky.turns == router.sticky.turns
        }),
{
    law_abandoned_rebind_restores_bindings(
        router.sticky,
        decision.session_id@,
        decision.expected,
        decision.cold,
        decision.ttl,
        revision,
        begun_at,
        now,
    );
}

/// A prefill that is aborted after its rebind began leaves all bindings and all
/// turns as they were before it took its turn.
pub proof fn law_aborted_prefill_restores_the_session(
    router: PushState,
    turn: SessionTurnGuard,
    decision: RebindDecision,
    guard: SessionRebindGuard,
    reason: RebindTransition,
    revision: u64,
    begun_at: Instant,
    now: Instant,
)
    requires
        !router.sticky.turns.contains_key(turn.session()),
        prefill::can_shadow(router, decision, begun_at),
        guard.session() == decision.session_id@,
        guard.token() == AffinityState::rebind_token(decision.expected, decision.cold, revision),
    ensures
        ({
            let owned = router.with_sticky(
                router.sticky.turn_taken(turn.session(), turn.owner()),
            );
            let begun = prefill::shadowed(owned, decision, revision, begun_at);
            let after = prefill::turn_over(
                prefill::gave_up(begun, Some(guard), reason, now),
                Some(turn),
            );
            &&& after.sticky.router.store == router.sticky.router.store
            &&& after.sticky.router.rebind_counts == router.sticky.router.rebind_counts
            &&& after.sticky.turns == router.sticky.turns
        }),
{
    let owned = router.with_sticky(router.sticky.turn_taken(turn.session(), turn.owner()));
    law_abandoned_rebind_restores_bindings(
        owned.sticky,
        decision.session_id@,
        decision.expected,
        decision.cold,
        decision.ttl,
        revision,
        begun_at,
        now,
    );
    assert(owned.sticky.turns.remove(turn.session()) =~= router.sticky.turns);
}

/// The start of a rebind hides the cold target: the session still resolves as
/// before.
pub proof fn law_shadow_leaves_the_hot_binding_visible(
    router: PushState,
    decision: RebindDecision,
    revision: u64,
    now: Instant,
)
    ensures
        same_bindings(router, prefill::shadowed(router, decision, revision, now)),
{
}

/// The load of a session calls for one target at most. It is another rank than
/// the hot one, an eligible one, and no eligible rank has a smaller backlog.
pub proof fn law_rebind_target_is_the_coldest_rank(
    config: RebindConfig,
    loads: Seq<PotentialLoad>,
    expected: AffinityBindingToken,
    cold: WorkerWithDpRank,
    other: WorkerWithDpRank,
)
    requires
        decision::sheds_to(config, loads, expected, cold),
    ensures
        decision::sheds_to(config, loads, expected, other) ==> other == cold,
        cold != expected.binding.worker,
        exists|c: int|
            #![trigger loads[c]]
            0 <= c < loads.len() && loads[c].spec_rank() == cold && loads[c].eligible && forall|
                j: int,
            |
                #![trigger loads[j]]
                0 <= j < loads.len() && loads[j].spec_candidate(expected)
                    ==> loads[c].spec_backlog() <= loads[j].spec_backlog(),
{
    let hot = expected.binding.worker;
    let (h, c) = choose|h: int, c: int|
        #![trigger decision::is_hot(loads, hot, h), decision::is_coldest(loads, expected, c)]
        decision::is_hot(loads, hot, h) && decision::is_coldest(loads, expected, c)
            && decision::is_imbalanced(config, loads[h], loads[c]) && cold == loads[c].spec_rank();
    assert(loads[c].spec_rank() == cold);
    if decision::sheds_to(config, loads, expected, other) {
        let (g, d) = choose|h: int, c: int|
            #![trigger decision::is_hot(loads, hot, h), decision::is_coldest(loads, expected, c)]
            decision::is_hot(loads, hot, h) && decision::is_coldest(loads, expected, c)
                && decision::is_imbalanced(config, loads[h], loads[c]) && other
                == loads[c].spec_rank();
        assert(c == d);
    }
}

/// A rebind that is due is never refused for leaving the worker of an
/// engine-backed session, and it moves only what is worth moving: the turn
/// brings enough new work, and the hot rank's backlog exceeds the cold one's by
/// more than the hysteresis.
pub proof fn law_due_rebind_is_worth_it(
    router: PushState,
    config: RebindConfig,
    request: PreprocessedRequest,
    phase: RequestPhase,
    expected: AffinityBindingToken,
    hot_supported: bool,
    loads: Seq<PotentialLoad>,
    now: Instant,
    cold: WorkerWithDpRank,
)
    requires
        decision::rebind_due(
            router.sticky,
            config,
            request,
            phase,
            expected,
            hot_supported,
            loads,
            now,
            cold,
        ),
    ensures
        phase == RequestPhase::Prefill,
        !RouterState::crosses_engine(expected, cold),
        exists|h: int, c: int|
            #![trigger loads[h], loads[c]]
            0 <= h < loads.len() && 0 <= c < loads.len() && loads[h].spec_rank()
                == expected.binding.worker && loads[c].spec_rank() == cold
                && loads[h].request_prefill_delta >= config.min_new_tokens
                && loads[h].spec_backlog() > loads[c].spec_backlog() + config.hysteresis_tokens,
{
    let hot = expected.binding.worker;
    let (h, c) = choose|h: int, c: int|
        #![trigger decision::is_hot(loads, hot, h), decision::is_coldest(loads, expected, c)]
        decision::is_hot(loads, hot, h) && decision::is_coldest(loads, expected, c)
            && decision::is_imbalanced(config, loads[h], loads[c]) && cold == loads[c].spec_rank();
    assert(loads[h].spec_rank() == hot && loads[c].spec_rank() == cold);
}

/// No session is moved more often than the configuration allows, nor twice
/// within the cooldown.
pub proof fn law_rebinds_are_throttled(
    router: PushState,
    config: RebindConfig,
    request: PreprocessedRequest,
    phase: RequestPhase,
    session: Seq<char>,
    expected: AffinityBindingToken,
    hot_supported: bool,
    loads: Seq<PotentialLoad>,
    now: Instant,
    cold: WorkerWithDpRank,
)
    requires
        crate::sticky::coordinator::sticky_session(request, phase) == Some(session),
        router.sticky.router.rebinds(session) >= config.max_per_session
            || router.sticky.router.cooling(
            session,
            Duration::spec_from_secs(crate::push_router::config::REBIND_COOLDOWN_SECS),
            now,
        ),
    ensures
        !decision::rebind_due(
            router.sticky,
            config,
            request,
            phase,
            expected,
            hot_supported,
            loads,
            now,
            cold,
        ),
{
}

/// A rebind that is due can still be counted when it is published, because the
/// number of rebinds of a session is capped before the counter is full.
pub proof fn law_due_rebind_can_be_counted(
    router: PushState,
    config: RebindConfig,
    request: PreprocessedRequest,
    expected: AffinityBindingToken,
    hot_supported: bool,
    loads: Seq<PotentialLoad>,
    revision: u64,
    now: Instant,
    decision: RebindDecision,
)
    requires
        decision::is_decision(
            Some(decision),
            router.sticky,
            config,
            request,
            RequestPhase::Prefill,
            expected,
            hot_supported,
            loads,
            now,
        ),
    ensures
        prefill::shadowed(router, decision, revision, now).sticky.router.rebinds(decision.session_id@)
            < u32::MAX,
{
}

/// A selection falls back at most once, and a lifecycle action or a final
/// target never does: without a pin, and where the plan does not allow it, a
/// failure is reported.
pub proof fn law_selection_falls_back_at_most_once(
    router: PushState,
    request: PreprocessedRequest,
    phase: RequestPhase,
    plan: SelectionPlan,
    now: Instant,
)
    requires
        plan.pinned_worker is None || !plan.allow_sticky_fallback,
    ensures
        selection::failed_selection(router, request, phase, plan, now) == FailedSelection::Reject,
{
}

/// A request that only asks where it would go leaves the router as it is, on
/// every step of its selection: when its session is resolved, when a worker is
/// selected for it, and when none is.
pub proof fn law_query_changes_nothing(
    router: PushState,
    request: PreprocessedRequest,
    phase: RequestPhase,
    plan: SelectionPlan,
    token: AffinityBindingToken,
    ineligible: bool,
    now: Instant,
)
    requires
        plan.is_query_only,
    ensures
        selection::resolved(router, request, phase, true, now) == router,
        selection::kept_eligible(router, request, phase, true, token, ineligible) == router,
        selection::selected(router, request, phase, plan, now) == router,
        selection::failed(router, request, phase, plan, now) == router,
        (BindingRecheck { token, plan }).rechecked(router, request, phase, ineligible) == router,
{
}

/// A frame without data that reports no failure is handed on and keeps the
/// rebind pending.
pub proof fn law_frame_without_data_proves_nothing(
    gate: GateState,
    router: PushState,
    item: Annotated,
    complete: bool,
    now: Instant,
    action: RebindStreamAction,
)
    requires
        item.data is None,
        !item.spec_fails(),
        gate.answers(router, item, complete, now, action),
    ensures
        action is Forward,
        gate.after(item, complete) == gate,
        gate.routes_on(router, item, complete, now) == router,
{
}

/// Over any row of frames a rebind ends at most once: once a frame has ended it,
/// every later frame is handed on or held back and changes nothing, and nothing
/// is pending when the stream ends.
pub proof fn law_rebind_ends_at_most_once(
    gate: GateState,
    frames: Seq<(Annotated, bool)>,
    i: int,
    j: int,
    router: PushState,
    now: Instant,
    action: RebindStreamAction,
)
    requires
        0 <= i < j < frames.len(),
        gate.meaning_at(frames, i) is Failure || gate.meaning_at(frames, i) is Completion,
        gate.after_all(frames.take(j)).answers(router, frames[j].0, frames[j].1, now, action),
    ensures
        gate.meaning_at(frames, j) is Plain || gate.meaning_at(frames, j) is Control,
        action is Forward || action is SuppressControlFrame,
        gate.after_all(frames.take(j)).routes_on(router, frames[j].0, frames[j].1, now) == router,
        gate.after_all(frames).pending is None,
{
    lemma_next_frame(gate, frames, i);
    lemma_ended_stays_ended(gate, frames, i + 1, j);
    lemma_ended_stays_ended(gate, frames, i + 1, frames.len() as int);
    assert(frames.take(frames.len() as int) =~= frames);
}

/// Over any row of frames that a new rebind meets, it is published only after a
/// strictly earlier frame has carried bootstrap data.
pub proof fn law_publication_follows_an_earlier_bootstrap(
    gate: GateState,
    frames: Seq<(Annotated, bool)>,
    j: int,
)
    requires
        !gate.saw_bootstrap_data,
        0 <= j < frames.len(),
        gate.meaning_at(frames, j) is Completion,
    ensures
        exists|i: int|
            #![trigger frames[i]]
            0 <= i < j && frames[i].0.data is Some
                && frames[i].0.data->0.disaggregated_params is Some,
{
    lemma_bootstrap_came(gate, frames, j);
}

proof fn lemma_next_frame(gate: GateState, frames: Seq<(Annotated, bool)>, i: int)
    requires
        0 <= i < frames.len(),
    ensures
        gate.after_all(frames.take(i + 1)) == gate.after_all(frames.take(i)).after(
            frames[i].0,
            frames[i].1,
        ),
{
    assert(frames.take(i + 1).drop_last() =~= frames.take(i));
    assert(frames.take(i + 1).last() == frames[i]);
}

proof fn lemma_ended_stays_ended(
    gate: GateState,
    frames: Seq<(Annotated, bool)>,
    i: int,
    j: int,
)
    requires
        0 <= i <= j <= frames.len(),
        gate.after_all(frames.take(i)).pending is None,
    ensures
        gate.after_all(frames.take(j)).pending is None,
    decreases j - i,
{
    if i < j {
        lemma_ended_stays_ended(gate, frames, i, j - 1);
        lemma_next_frame(gate, frames, j - 1);
    }
}

proof fn lemma_bootstrap_came(gate: GateState, frames: Seq<(Annotated, bool)>, j: int)
    requires
        !gate.saw_bootstrap_data,
        0 <= j <= frames.len(),
        gate.after_all(frames.take(j)).saw_bootstrap_data,
    ensures
        exists|i: int|
            #![trigger frames[i]]
            0 <= i < j && frames[i].0.data is Some
                && frames[i].0.data->0.disaggregated_params is Some,
    decreases j,
{
    if j > 0 {
        lemma_next_frame(gate, frames, j - 1);
        if gate.after_all(frames.take(j - 1)).saw_bootstrap_data {
            lemma_bootstrap_came(gate, frames, j - 1);
        }
    }
}

} // verus!
