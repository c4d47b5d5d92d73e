//! Selecting a worker for a prefill, with the chance to rebind the session.

use vstd::prelude::*;

use std::collections::HashMap;

use crate::protocols::{PreprocessedRequest, RequestPhase};
use crate::push_router::config::RebindConfig;
use crate::push_router::decision::{PotentialLoad, RebindDecision, WorkerRuntimeConfig};
use crate::push_router::error::RouteError;
use crate::push_router::router::{KvPushRouter, PushState, RebindTransition};
use crate::push_router::selection::{
    reject_unexpected_final_target, select_request_for_final_target, RefusedSelection,
    SelectionPlan, WorkerSelection,
};
use crate::sticky::coordinator::{SessionRebindGuard, SessionTurnGuard, TurnAcquisition};
use crate::sticky::revisions::AffinityRevisions;
use crate::sticky::router::AffinityBindingToken;
use crate::sticky::state::AffinityState;
use crate::time::Instant;

verus! {

/// The next step of a prefill. Each holds the turn of the session, where the
/// request is part of one.
pub enum PrefillStep {
    /// Resolve the binding of the session, and go on with
    /// [`KvPushRouter::binding_resolved`].
    Resolve(Option<SessionTurnGuard>),
    /// Get the potential loads, and go on with [`KvPushRouter::loads_known`].
    Loads { session_turn: Option<SessionTurnGuard>, expected: AffinityBindingToken },
    /// Select a worker as usual, and go on with [`PrefillSelection::usual`].
    Select(Option<SessionTurnGuard>),
    /// Have the cold target of the decision booked by this plan, and go on with
    /// [`KvPushRouter::start_shadow`].
    SelectFinal {
        session_turn: Option<SessionTurnGuard>,
        decision: RebindDecision,
        plan: SelectionPlan,
    },
}

/// A worker for a prefill, and what is held for the session meanwhile.
pub struct PrefillSelection {
    pub selection: WorkerSelection,
    pub pending_rebind: Option<SessionRebindGuard>,
    pub session_turn: Option<SessionTurnGuard>,
}

impl PrefillSelection {
    /// A worker that was selected as usual.
    pub fn usual(selection: WorkerSelection, session_turn: Option<SessionTurnGuard>) -> (prefill:
        PrefillSelection)
        ensures
            prefill == (PrefillSelection { selection, pending_rebind: None, session_turn }),
    {
        PrefillSelection { selection, pending_rebind: None, session_turn }
    }
}

/// The guard is for the turn of this session, with this owner.
pub open spec fn owns_turn(
    turn: Option<SessionTurnGuard>,
    session: Seq<char>,
    owner: Seq<char>,
) -> bool {
    &&& turn is Some
    &&& turn->0.session() == session
    &&& turn->0.owner() == owner
}

/// After a pending rebind was given up for `reason`. Without one nothing
/// happens.
pub open spec fn gave_up(
    state: PushState,
    pending: Option<SessionRebindGuard>,
    reason: RebindTransition,
    now: Instant,
) -> PushState {
    match pending {
        Some(guard) => state.with_sticky(
            state.sticky.abandoned(guard.session(), guard.token(), now),
        ).recording(reason),
        None => state,
    }
}

/// After the turn was given back, if it was held.
pub open spec fn turn_over(state: PushState, turn: Option<SessionTurnGuard>) -> PushState {
    match turn {
        Some(guard) => state.with_sticky(
            state.sticky.turn_released(guard.session(), guard.owner()),
        ),
        None => state,
    }
}

/// The binding that a rebind may be decided on: the resolved one, while it is
/// the visible one and no transition is pending.
pub open spec fn stable_binding(
    state: PushState,
    request: PreprocessedRequest,
    hot_binding: AffinityBindingToken,
    now: Instant,
) -> Option<AffinityBindingToken> {
    match crate::sticky::coordinator::sticky_session(request, RequestPhase::Prefill) {
        Some(session) => if state.sticky.router.store.rebindable(session, now) == Some(
            hot_binding,
        ) {
            Some(hot_binding)
        } else {
            None
        },
        None => None,
    }
}

/// After the stable binding of the request's session was looked up.
pub open spec fn rebind_looked_up(
    state: PushState,
    request: PreprocessedRequest,
    now: Instant,
) -> PushState {
    match crate::sticky::coordinator::sticky_session(request, RequestPhase::Prefill) {
        Some(session) => state.with_sticky(
            state.sticky.with_store(state.sticky.router.store.rebind_peeked(session, now)),
        ),
        None => state,
    }
}

/// The step that follows when the session of a request was resolved.
pub open spec fn step_after_resolving(
    state: PushState,
    session_turn: Option<SessionTurnGuard>,
    request: PreprocessedRequest,
    hot_binding: Option<AffinityBindingToken>,
    configs: Map<u64, WorkerRuntimeConfig>,
    now: Instant,
) -> PrefillStep {
    if hot_binding is Some && stable_binding(state, request, hot_binding->0, now) is Some
        && crate::push_router::decision::may_rebind(request, RequestPhase::Prefill)
        && crate::push_router::decision::supports_session_rebind(
        configs,
        hot_binding->0.binding.worker.worker_id,
    ) {
        PrefillStep::Loads { session_turn, expected: hot_binding->0 }
    } else {
        PrefillStep::Select(session_turn)
    }
}

/// `step` follows when the loads are known: the cold target is booked exactly
/// when a rebind is due.
pub open spec fn is_step_after_loads(
    step: PrefillStep,
    state: PushState,
    config: RebindConfig,
    session_turn: Option<SessionTurnGuard>,
    request: PreprocessedRequest,
    expected: AffinityBindingToken,
    configs: Map<u64, WorkerRuntimeConfig>,
    loads: Seq<PotentialLoad>,
    now: Instant,
) -> bool {
    let hot_supported = crate::push_router::decision::supports_session_rebind(
        configs,
        expected.binding.worker.worker_id,
    );
    let marked = crate::push_router::decision::supported_loads(configs, loads);
    match step {
        PrefillStep::SelectFinal { session_turn: turn, decision, plan } => {
            &&& turn == session_turn
            &&& crate::push_router::decision::is_decision(
                Some(decision),
                state.sticky,
                config,
                request,
                RequestPhase::Prefill,
                expected,
                hot_supported,
                marked,
                now,
            )
            &&& plan == (SelectionPlan {
                pinned_worker: Some(decision.cold),
                is_query_only: false,
                refresh_sticky: false,
                allow_sticky_fallback: false,
            })
        },
        _ => {
            &&& step == PrefillStep::Select(session_turn)
            &&& crate::push_router::decision::is_decision(
                None,
                state.sticky,
                config,
                request,
                RequestPhase::Prefill,
                expected,
                hot_supported,
                marked,
                now,
            )
        },
    }
}

/// The shadow rebind that a decision calls for can start.
pub open spec fn can_shadow(state: PushState, decision: RebindDecision, now: Instant) -> bool {
    state.sticky.router.can_begin(
        decision.session_id@,
        decision.expected,
        decision.cold,
        now,
    )
}

/// After the shadow rebind that a decision calls for has started under this
/// revision.
pub open spec fn shadowed(
    state: PushState,
    decision: RebindDecision,
    revision: u64,
    now: Instant,
) -> PushState {
    state.with_sticky(
        state.sticky.with_router(
            state.sticky.router.begun(
                decision.session_id@,
                decision.expected,
                decision.cold,
                decision.ttl,
                revision,
                now,
            ),
        ),
    ).recording(RebindTransition::DecisionLoadImbalance)
}

/// `started` is what comes of starting the shadow rebind of a decision, once a
/// rank was booked for it.
pub open spec fn is_shadow(
    started: Result<PrefillSelection, RefusedSelection>,
    state: PushState,
    request_id: Seq<char>,
    session_turn: Option<SessionTurnGuard>,
    decision: RebindDecision,
    selection: WorkerSelection,
    revision: u64,
    now: Instant,
) -> bool {
    match started {
        Ok(prefill) => {
            &&& selection.spec_rank() == decision.cold
            &&& can_shadow(state, decision, now)
            &&& prefill.selection == selection
            &&& prefill.session_turn == session_turn
            &&& prefill.pending_rebind matches Some(guard)
            &&& guard.session() == decision.session_id@
            &&& guard.token() == AffinityState::rebind_token(
                decision.expected,
                decision.cold,
                revision,
            )
        },
        Err(refused) => {
            &&& refused.free_booking == selection.scheduler_tracked
            &&& if selection.spec_rank() != decision.cold {
                &&& refused.error matches RouteError::TargetMismatch {
                    request_id: named,
                    expected,
                    selected,
                }
                &&& named@ == request_id
                &&& expected == decision.cold
                &&& selected == selection.spec_rank()
            } else {
                &&& !can_shadow(state, decision, now)
                &&& refused.error matches RouteError::SessionChanged { session_id }
                &&& session_id@ == decision.session_id@
            }
        },
    }
}

impl KvPushRouter {
    /// Start a prefill for the request with this id. A request of a session must
    /// own the session's turn: while another request does, it is rejected and
    /// nothing is booked. A lifecycle action goes to its binding as usual.
    pub fn start_prefill(&mut self, request: &PreprocessedRequest, context_id: &str) -> (started:
        Result<PrefillStep, RouteError>)
        ensures
            match crate::sticky::coordinator::turn_session(*request) {
                Some(session) => if old(self).state().sticky.turns.contains_key(session) {
                    &&& started matches Err(RouteError::TurnInFlight { session_id, current_owner })
                    &&& session_id@ == session
                    &&& current_owner@ == old(self).state().sticky.turns[session]
                    &&& final(self).state() == old(self).state()
                } else {
                    &&& if request.spec_has_action() {
                        started matches Ok(PrefillStep::Select(turn)) && owns_turn(
                            turn,
                            session,
                            context_id@,
                        )
                    } else {
                        started matches Ok(PrefillStep::Resolve(turn)) && owns_turn(
                            turn,
                            session,
                            context_id@,
                        )
                    }
                    &&& final(self).state() == old(self).state().with_sticky(
                        old(self).state().sticky.turn_taken(session, context_id@),
                    )
                },
                None => {
                    &&& started matches Ok(PrefillStep::Resolve(turn))
                    &&& turn is None
                    &&& final(self).state() == old(self).state()
                },
            },
            final(self).config == old(self).config,
    {
        let turn = match self.sticky.acquire_turn_for_phase(
            request,
            RequestPhase::Prefill,
            context_id,
        ) {
            TurnAcquisition::NotApplicable => None,
            TurnAcquisition::Owner(guard) => Some(guard),
            TurnAcquisition::Overlap { current_owner } => {
                let session_id = match request.session_control() {
                    Some(control) => control.session_id.clone(),
                    None => String::new(),
                };
                return Err(RouteError::TurnInFlight { session_id, current_owner });
            },
        };
        if request.has_session_action() {
            Ok(PrefillStep::Select(turn))
        } else {
            Ok(PrefillStep::Resolve(turn))
        }
    }

    /// The session of the request was resolved to this binding. The loads are
    /// asked for only where the binding is stable and a rebind is possible.
    pub fn binding_resolved_at(
        &mut self,
        session_turn: Option<SessionTurnGuard>,
        request: &PreprocessedRequest,
        hot_binding: Option<AffinityBindingToken>,
        configs: &HashMap<u64, WorkerRuntimeConfig>,
        now: Instant,
    ) -> (step: PrefillStep)
        ensures
            step == step_after_resolving(
                old(self).state(),
                session_turn,
                *request,
                hot_binding,
                configs@,
                now,
            ),
            final(self).state() == if hot_binding is Some {
                rebind_looked_up(old(self).state(), *request, now)
            } else {
                old(self).state()
            },
            final(self).config == old(self).config,
    {
        let expected = self.stable_binding_at(request, hot_binding, now);
        match expected {
            Some(token) => {
                if self.considers_rebind(request, RequestPhase::Prefill, expected, configs) {
                    PrefillStep::Loads { session_turn, expected: token }
                } else {
                    PrefillStep::Select(session_turn)
                }
            },
            None => PrefillStep::Select(session_turn),
        }
    }

    /// The session of the request was resolved to this binding.
    pub fn binding_resolved(
        &mut self,
        session_turn: Option<SessionTurnGuard>,
        request: &PreprocessedRequest,
        hot_binding: Option<AffinityBindingToken>,
        configs: &HashMap<u64, WorkerRuntimeConfig>,
    ) -> (step: PrefillStep)
        ensures
            exists|now: Instant| #[trigger]
                old(self).sticky.shows(now) && now.in_range() && step == step_after_resolving(
                    old(self).state(),
                    session_turn,
                    *request,
                    hot_binding,
                    configs@,
                    now,
                ) && final(self).state() == if hot_binding is Some {
                    rebind_looked_up(old(self).state(), *request, now)
                } else {
                    old(self).state()
                },
            final(self).config == old(self).config,
    {
        let now = self.sticky.now();
        self.binding_resolved_at(session_turn, request, hot_binding, configs, now)
    }

    /// The potential loads are known, or could not be had. A rebind that is due
    /// goes to its cold target and nowhere else.
    pub fn loads_known_at(
        &self,
        session_turn: Option<SessionTurnGuard>,
        request: &PreprocessedRequest,
        expected: AffinityBindingToken,
        configs: &HashMap<u64, WorkerRuntimeConfig>,
        loads: Option<&Vec<PotentialLoad>>,
        now: Instant,
    ) -> (step: PrefillStep)
        ensures
            match loads {
                Some(known) => is_step_after_loads(
                    step,
                    self.state(),
                    self.config,
                    session_turn,
                    *request,
                    expected,
                    configs@,
                    known@,
                    now,
                ),
                None => step == PrefillStep::Select(session_turn),
            },
    {
        match self.check_rebind_decision_at(
            request,
            RequestPhase::Prefill,
            Some(expected),
            configs,
            loads,
            now,
        ) {
            Some(decision) => {
                let plan = select_request_for_final_target(decision.cold);
                PrefillStep::SelectFinal { session_turn, decision, plan }
            },
            None => PrefillStep::Select(session_turn),
        }
    }

    /// The potential loads are known, or could not be had.
    pub fn loads_known(
        &self,
        session_turn: Option<SessionTurnGuard>,
        request: &PreprocessedRequest,
        expected: AffinityBindingToken,
        configs: &HashMap<u64, WorkerRuntimeConfig>,
        loads: Option<&Vec<PotentialLoad>>,
    ) -> (step: PrefillStep)
        ensures
            match loads {
                Some(known) => exists|now: Instant| #[trigger]
                    self.sticky.shows(now) && now.in_range() && is_step_after_loads(
                        step,
                        self.state(),
                        self.config,
                        session_turn,
                        *request,
                        expected,
                        configs@,
                        known@,
                        now,
                    ),
                None => step == PrefillStep::Select(session_turn),
            },
    {
        let now = self.sticky.now();
        self.loads_known_at(session_turn, request, expected, configs, loads, now)
    }

    /// The binding that a rebind may be decided on, out of the one that the
    /// session was resolved to.
    pub fn stable_binding_at(
        &mut self,
        request: &PreprocessedRequest,
        hot_binding: Option<AffinityBindingToken>,
        now: Instant,
    ) -> (expected: Option<AffinityBindingToken>)
        ensures
            match hot_binding {
                Some(binding) => {
                    &&& expected == stable_binding(old(self).state(), *request, binding, now)
                    &&& final(self).state() == rebind_looked_up(old(self).state(), *request, now)
                },
                None => expected is None && final(self).state() == old(self).state(),
            },
            final(self).config == old(self).config,
    {
        let binding = match hot_binding {
            Some(binding) => binding,
            None => {
                return None;
            },
        };
        match self.sticky.rebind_token_for_phase_at(request, RequestPhase::Prefill, now) {
            Some(token) => {
                if token == binding {
                    Some(token)
                } else {
                    None
                }
            },
            None => None,
        }
    }

    /// Start the shadow rebind of a decision, once a rank was booked for it.
    ///
    /// Only a booking of exactly the cold target counts, and only while the
    /// session is bound as it was when the rebind was decided on. A prefill that
    /// is refused gives its turn back.
    pub fn start_shadow_at(
        &mut self,
        request_id: &str,
        session_turn: Option<SessionTurnGuard>,
        decision: &RebindDecision,
        selection: WorkerSelection,
        now: Instant,
        revisions: &mut AffinityRevisions,
    ) -> (started: Result<PrefillSelection, RefusedSelection>)
        ensures
            is_shadow(
                started,
                old(self).state(),
                request_id@,
                session_turn,
                *decision,
                selection,
                old(revisions).next(),
                now,
            ),
            final(revisions).next() == old(revisions).after(started is Ok),
            final(self).state() == if started is Ok {
                shadowed(old(self).state(), *decision, old(revisions).next(), now)
            } else {
                turn_over(old(self).state(), session_turn)
            },
            final(self).config == old(self).config,
    {
        match reject_unexpected_final_target(request_id, &selection, decision.cold) {
            Ok(_) => {},
            Err(refused) => {
                self.release_turn(session_turn);
                return Err(refused);
            },
        }
        match self.sticky.begin_rebind_at(
            decision.session_id.as_str(),
            decision.expected,
            decision.cold,
            decision.ttl,
            now,
            revisions,
        ) {
            Some(guard) => {
                self.record_rebind_transition(RebindTransition::DecisionLoadImbalance);
                Ok(PrefillSelection { selection, pending_rebind: Some(guard), session_turn })
            },
            None => {
                self.release_turn(session_turn);
                Err(
                    RefusedSelection {
                        error: RouteError::SessionChanged {
                            session_id: decision.session_id.clone(),
                        },
                        free_booking: selection.scheduler_tracked,
                    },
                )
            },
        }
    }

    /// Start the shadow rebind of a decision, once a rank was booked for it.
    pub fn start_shadow(
        &mut self,
        request_id: &str,
        session_turn: Option<SessionTurnGuard>,
        decision: &RebindDecision,
        selection: WorkerSelection,
        revisions: &mut AffinityRevisions,
    ) -> (started: Result<PrefillSelection, RefusedSelection>)
        ensures
            exists|now: Instant| #[trigger]
                old(self).sticky.shows(now) && now.in_range() && is_shadow(
                    started,
                    old(self).state(),
                    request_id@,
                    session_turn,
                    *decision,
                    selection,
                    old(revisions).next(),
                    now,
                ) && final(self).state() == if started is Ok {
                    shadowed(old(self).state(), *decision, old(revisions).next(), now)
                } else {
                    turn_over(old(self).state(), session_turn)
                },
            final(revisions).next() == old(revisions).after(started is Ok),
            final(self).config == old(self).config,
    {
        let now = self.sticky.now();
        self.start_shadow_at(request_id, session_turn, decision, selection, now, revisions)
    }

    /// Give up a pending rebind for `reason`, and give the turn back.
    pub fn abort_prefill_at(
        &mut self,
        pending_rebind: Option<SessionRebindGuard>,
        session_turn: Option<SessionTurnGuard>,
        reason: RebindTransition,
        now: Instant,
    )
        ensures
            final(self).state() == turn_over(
                gave_up(old(self).state(), pending_rebind, reason, now),
                session_turn,
            ),
            final(self).config == old(self).config,
    {
        match pending_rebind {
            Some(guard) => {
                self.record_rebind_transition(reason);
                guard.abandon_at(&mut self.sticky, now);
            },
            None => {},
        }
        self.release_turn(session_turn);
    }

    /// Give the turn back, if it is held.
    pub fn release_turn(&mut self, session_turn: Option<SessionTurnGuard>)
        ensures
            final(self).state() == turn_over(old(self).state(), session_turn),
            final(self).config == old(self).config,
    {
        match session_turn {
            Some(guard) => guard.release(&mut self.sticky),
            None => {},
        }
    }

    /// The selected worker could not be tracked.
    pub fn tracking_failed_at(&mut self, prefill: PrefillSelection, now: Instant)
        ensures
            final(self).state() == turn_over(
                gave_up(
                    old(self).state(),
                    prefill.pending_rebind,
                    RebindTransition::AbortTrackingError,
                    now,
                ),
                prefill.session_turn,
            ),
            final(self).config == old(self).config,
    {
        self.abort_prefill_at(
            prefill.pending_rebind,
            prefill.session_turn,
            RebindTransition::AbortTrackingError,
            now,
        );
    }

    /// The selected worker could not be tracked.
    pub fn tracking_failed(&mut self, prefill: PrefillSelection)
        ensures
            exists|now: Instant| #[trigger]
                old(self).sticky.shows(now) && now.in_range() && final(self).state() == turn_over(
                    gave_up(
                        old(self).state(),
                        prefill.pending_rebind,
                        RebindTransition::AbortTrackingError,
                        now,
                    ),
                    prefill.session_turn,
                ),
            final(self).config == old(self).config,
    {
        let now = self.sticky.now();
        self.tracking_failed_at(prefill, now);
    }

    /// The request could not be prepared for the selected worker.
    pub fn prepare_failed_at(&mut self, prefill: PrefillSelection, now: Instant)
        ensures
            final(self).state() == turn_over(
                gave_up(
                    old(self).state(),
                    prefill.pending_rebind,
                    RebindTransition::AbortPrepareError,
                    now,
                ),
                prefill.session_turn,
            ),
            final(self).config == old(self).config,
    {
        self.abort_prefill_at(
            prefill.pending_rebind,
            prefill.session_turn,
            RebindTransition::AbortPrepareError,
            now,
        );
    }

    /// The request could not be prepared for the selected worker.
    pub fn prepare_failed(&mut self, prefill: PrefillSelection)
        ensures
            exists|now: Instant| #[trigger]
                old(self).sticky.shows(now) && now.in_range() && final(self).state() == turn_over(
                    gave_up(
                        old(self).state(),
                        prefill.pending_rebind,
                        RebindTransition::AbortPrepareError,
                        now,
                    ),
                    prefill.session_turn,
                ),
            final(self).config == old(self).config,
    {
        let now = self.sticky.now();
        self.prepare_failed_at(prefill, now);
    }
}

} // verus!
