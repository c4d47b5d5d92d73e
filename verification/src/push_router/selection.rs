//! Selecting a worker for a request, and keeping track of the choice.

use vstd::prelude::*;

use crate::protocols::{
    Annotated, AnnotationValue, LLMEngineOutput, PreprocessedRequest, RequestPhase, RoutingData,
    WorkerIdInfo, WorkerWithDpRank,
};
use crate::push_router::error::RouteError;
use crate::push_router::router::{KvPushRouter, PushState};
use crate::sticky::router::AffinityBindingToken;
use crate::time::Instant;

verus! {

/// The rank that the scheduler chose for a request.
#[derive(Clone, Debug)]
pub struct WorkerSelection {
    pub instance_id: u64,
    pub dp_rank: u32,
    /// The scheduler has booked the request.
    pub scheduler_tracked: bool,
    pub cached_tokens: usize,
    /// Hashes of the request's blocks, where the scheduler computed them.
    pub routing_hashes: Option<Vec<u64>>,
}

impl WorkerSelection {
    pub open spec fn spec_rank(self) -> WorkerWithDpRank {
        WorkerWithDpRank { worker_id: self.instance_id, dp_rank: self.dp_rank }
    }

    pub fn rank(&self) -> (rank: WorkerWithDpRank)
        ensures
            rank == self.spec_rank(),
    {
        WorkerWithDpRank::new(self.instance_id, self.dp_rank)
    }
}

/// What is asked of the scheduler.
#[derive(Clone, Copy, Debug, PartialEq, Eq, Structural)]
pub struct SelectionPlan {
    /// The rank that has to be chosen.
    pub pinned_worker: Option<WorkerWithDpRank>,
    /// The request only asks where it would go: nothing is booked.
    pub is_query_only: bool,
    /// A pin that succeeds extends the affinity it came from.
    pub refresh_sticky: bool,
    /// A pin that fails may be given up.
    pub allow_sticky_fallback: bool,
}

impl SelectionPlan {
    /// Whether a booking may have to be freed when the selection is cancelled.
    pub fn books(&self) -> (booked: bool)
        ensures
            booked == !self.is_query_only,
    {
        !self.is_query_only
    }
}

/// What to do after a selection that failed.
#[derive(Clone, Copy, Debug, PartialEq, Eq, Structural)]
pub enum FailedSelection {
    /// Report the failure.
    Reject,
    /// Find out whether the pinned rank is ineligible for the request, and go on
    /// with [`BindingRecheck::answered`].
    Recheck(BindingRecheck),
}

/// A binding whose rank was not chosen. It may go, and the request go elsewhere,
/// only if the rank is ineligible for the request.
#[derive(Clone, Copy, Debug, PartialEq, Eq, Structural)]
pub struct BindingRecheck {
    pub token: AffinityBindingToken,
    pub plan: SelectionPlan,
}

impl BindingRecheck {
    /// The plan that the selection goes on with, if it does.
    pub open spec fn next_plan(
        self,
        state: PushState,
        request: PreprocessedRequest,
        phase: RequestPhase,
        ineligible: bool,
    ) -> Option<SelectionPlan> {
        match crate::sticky::coordinator::binding_session(request, phase) {
            Some(session) => if ineligible && state.sticky.router.store.holds(
                session,
                self.token,
            ) {
                Some(SelectionPlan { pinned_worker: None, ..self.plan })
            } else {
                None
            },
            None => None,
        }
    }

    /// The router after the answer: the binding of an ineligible rank goes,
    /// unless the request only asks.
    pub open spec fn rechecked(
        self,
        state: PushState,
        request: PreprocessedRequest,
        phase: RequestPhase,
        ineligible: bool,
    ) -> PushState {
        if ineligible && !self.plan.is_query_only {
            binding_dropped(state, request, phase, self.token)
        } else {
            state
        }
    }

    /// It is known whether the pinned rank is ineligible for the request. If it
    /// is, and the binding is still current, the selection goes on without a
    /// pin; otherwise the failure is to be reported. The binding goes then,
    /// unless the request only asks.
    pub fn answered(
        self,
        router: &mut KvPushRouter,
        request: &PreprocessedRequest,
        phase: RequestPhase,
        ineligible: bool,
    ) -> (next: Option<SelectionPlan>)
        ensures
            next == self.next_plan(old(router).state(), *request, phase, ineligible),
            final(router).state() == self.rechecked(
                old(router).state(),
                *request,
                phase,
                ineligible,
            ),
            final(router).config == old(router).config,
    {
        if !ineligible {
            return None;
        }
        let goes_on = if self.plan.is_query_only {
            router.sticky.holds_token_for_phase(request, phase, self.token)
        } else {
            router.sticky.unbind_if_token_for_phase(request, phase, self.token)
        };
        if goes_on {
            Some(SelectionPlan { pinned_worker: None, ..self.plan })
        } else {
            None
        }
    }
}

/// The plan for a request whose session has this binding. A lifecycle action
/// stays with its binding whatever happens.
pub fn select_request(
    request: &PreprocessedRequest,
    is_query_only: bool,
    sticky_binding: Option<AffinityBindingToken>,
) -> (plan: SelectionPlan)
    ensures
        plan == (SelectionPlan {
            pinned_worker: match sticky_binding {
                Some(token) => Some(token.binding.worker),
                None => None,
            },
            is_query_only,
            refresh_sticky: true,
            allow_sticky_fallback: !request.spec_has_action(),
        }),
{
    let pinned_worker = match sticky_binding {
        Some(token) => Some(token.binding.worker),
        None => None,
    };
    SelectionPlan {
        pinned_worker,
        is_query_only,
        refresh_sticky: true,
        allow_sticky_fallback: !request.has_session_action(),
    }
}

/// The plan for a request that must go to `target` and nowhere else.
pub fn select_request_for_final_target(target: WorkerWithDpRank) -> (plan: SelectionPlan)
    ensures
        plan == (SelectionPlan {
            pinned_worker: Some(target),
            is_query_only: false,
            refresh_sticky: false,
            allow_sticky_fallback: false,
        }),
{
    SelectionPlan {
        pinned_worker: Some(target),
        is_query_only: false,
        refresh_sticky: false,
        allow_sticky_fallback: false,
    }
}

impl KvPushRouter {
    /// The visible binding of the request's session. A request that only asks
    /// changes nothing by it.
    pub fn resolve_binding_for_phase_at(
        &mut self,
        request: &PreprocessedRequest,
        phase: RequestPhase,
        is_query_only: bool,
        now: Instant,
    ) -> (token: Option<AffinityBindingToken>)
        ensures
            token == bound_to(old(self).state(), *request, phase, now),
            final(self).state() == resolved(
                old(self).state(),
                *request,
                phase,
                is_query_only,
                now,
            ),
            final(self).config == old(self).config,
    {
        if is_query_only {
            self.sticky.visible_token_for_phase_at(request, phase, now)
        } else {
            self.sticky.binding_token_for_phase_at(request, phase, now)
        }
    }

    /// The visible binding of the request's session.
    pub fn resolve_binding_for_phase(
        &mut self,
        request: &PreprocessedRequest,
        phase: RequestPhase,
        is_query_only: bool,
    ) -> (token: Option<AffinityBindingToken>)
        ensures
            exists|now: Instant| #[trigger]
                old(self).sticky.shows(now) && now.in_range() && token == bound_to(
                    old(self).state(),
                    *request,
                    phase,
                    now,
                ) && final(self).state() == resolved(
                    old(self).state(),
                    *request,
                    phase,
                    is_query_only,
                    now,
                ),
            final(self).config == old(self).config,
    {
        let now = self.sticky.now();
        self.resolve_binding_for_phase_at(request, phase, is_query_only, now)
    }

    /// The binding that the request is to follow, out of the visible one. One
    /// whose rank is ineligible for the request is not followed, unless a
    /// lifecycle action has to reach it; it goes then, unless the request only
    /// asks.
    pub fn keep_eligible_binding_for_phase(
        &mut self,
        request: &PreprocessedRequest,
        phase: RequestPhase,
        is_query_only: bool,
        token: AffinityBindingToken,
        ineligible: bool,
    ) -> (kept: Option<AffinityBindingToken>)
        ensures
            kept == if ineligible && !request.spec_has_action() {
                None
            } else {
                Some(token)
            },
            final(self).state() == kept_eligible(
                old(self).state(),
                *request,
                phase,
                is_query_only,
                token,
                ineligible,
            ),
            final(self).config == old(self).config,
    {
        if !ineligible || request.has_session_action() {
            return Some(token);
        }
        if !is_query_only {
            self.sticky.unbind_if_token_for_phase(request, phase, token);
        }
        None
    }

    /// The scheduler made a choice under `plan`: a booked turn that followed its
    /// affinity extends it.
    pub fn selection_succeeded_at(
        &mut self,
        request: &PreprocessedRequest,
        phase: RequestPhase,
        plan: SelectionPlan,
        now: Instant,
    )
        requires
            now.in_range(),
        ensures
            final(self).state() == selected(old(self).state(), *request, phase, plan, now),
            final(self).config == old(self).config,
    {
        if plan.refresh_sticky && plan.pinned_worker.is_some() && !plan.is_query_only {
            self.sticky.refresh_worker_for_phase_at(request, phase, now);
        }
    }

    /// The scheduler made a choice under `plan`.
    pub fn selection_succeeded(
        &mut self,
        request: &PreprocessedRequest,
        phase: RequestPhase,
        plan: SelectionPlan,
    )
        ensures
            exists|now: Instant| #[trigger]
                old(self).sticky.shows(now) && now.in_range() && final(self).state() == selected(
                    old(self).state(),
                    *request,
                    phase,
                    plan,
                    now,
                ),
            final(self).config == old(self).config,
    {
        let now = self.sticky.now();
        self.selection_succeeded_at(request, phase, plan, now);
    }

    /// The scheduler made no choice under `plan`. A fallback is considered only
    /// where the plan allows it and the session is still bound to the rank that
    /// was pinned; a mismatched fallback target is refused.
    pub fn selection_failed_at(
        &mut self,
        request: &PreprocessedRequest,
        phase: RequestPhase,
        plan: SelectionPlan,
        now: Instant,
    ) -> (next: FailedSelection)
        ensures
            next == failed_selection(old(self).state(), *request, phase, plan, now),
            final(self).state() == failed(old(self).state(), *request, phase, plan, now),
            final(self).config == old(self).config,
    {
        if !plan.allow_sticky_fallback {
            return FailedSelection::Reject;
        }
        match plan.pinned_worker {
            Some(worker) => {
                match self.resolve_binding_for_phase_at(request, phase, plan.is_query_only, now) {
                    Some(token) => {
                        if token.binding.worker == worker {
                            FailedSelection::Recheck(BindingRecheck { token, plan })
                        } else {
                            FailedSelection::Reject
                        }
                    },
                    None => FailedSelection::Reject,
                }
            },
            None => FailedSelection::Reject,
        }
    }

    /// The scheduler made no choice under `plan`.
    pub fn selection_failed(
        &mut self,
        request: &PreprocessedRequest,
        phase: RequestPhase,
        plan: SelectionPlan,
    ) -> (next: FailedSelection)
        ensures
            exists|now: Instant| #[trigger]
                old(self).sticky.shows(now) && now.in_range() && next == failed_selection(
                    old(self).state(),
                    *request,
                    phase,
                    plan,
                    now,
                ) && final(self).state() == failed(
                    old(self).state(),
                    *request,
                    phase,
                    plan,
                    now,
                ),
            final(self).config == old(self).config,
    {
        let now = self.sticky.now();
        self.selection_failed_at(request, phase, plan, now)
    }
}

/// The router after a choice was made under `plan`.
pub open spec fn selected(
    state: PushState,
    request: PreprocessedRequest,
    phase: RequestPhase,
    plan: SelectionPlan,
    now: Instant,
) -> PushState {
    match crate::sticky::coordinator::sticky_session(request, phase) {
        Some(session) => if plan.refresh_sticky && plan.pinned_worker is Some
            && !plan.is_query_only && !request.spec_has_action() {
            state.with_sticky(
                state.sticky.with_store(state.sticky.router.store.refreshed(session, now)),
            )
        } else {
            state
        },
        None => state,
    }
}

/// The visible binding of the request's session.
pub open spec fn bound_to(
    state: PushState,
    request: PreprocessedRequest,
    phase: RequestPhase,
    now: Instant,
) -> Option<AffinityBindingToken> {
    match crate::sticky::coordinator::binding_session(request, phase) {
        Some(session) => state.sticky.router.store.visible(session, now),
        None => None,
    }
}

/// The router without the binding of the request's session, if that is still
/// the one that `token` stands for.
pub open spec fn binding_dropped(
    state: PushState,
    request: PreprocessedRequest,
    phase: RequestPhase,
    token: AffinityBindingToken,
) -> PushState {
    match crate::sticky::coordinator::binding_session(request, phase) {
        Some(session) => state.with_sticky(
            state.sticky.with_store(state.sticky.router.store.removed_if(session, token)),
        ),
        None => state,
    }
}

/// The router after the binding that the request belongs to was looked up: an
/// expired one goes, unless the request only asks.
pub open spec fn resolved(
    state: PushState,
    request: PreprocessedRequest,
    phase: RequestPhase,
    is_query_only: bool,
    now: Instant,
) -> PushState {
    match crate::sticky::coordinator::binding_session(request, phase) {
        Some(session) => if is_query_only {
            state
        } else {
            state.with_sticky(
                state.sticky.with_store(state.sticky.router.store.peeked(session, now)),
            )
        },
        None => state,
    }
}

/// The router after the binding that the request belongs to was followed, or
/// not: one whose rank is ineligible goes, unless a lifecycle action has to
/// reach it or the request only asks.
pub open spec fn kept_eligible(
    state: PushState,
    request: PreprocessedRequest,
    phase: RequestPhase,
    is_query_only: bool,
    token: AffinityBindingToken,
    ineligible: bool,
) -> PushState {
    if ineligible && !request.spec_has_action() && !is_query_only {
        binding_dropped(state, request, phase, token)
    } else {
        state
    }
}

/// The router after no choice was made under `plan`.
pub open spec fn failed(
    state: PushState,
    request: PreprocessedRequest,
    phase: RequestPhase,
    plan: SelectionPlan,
    now: Instant,
) -> PushState {
    if plan.allow_sticky_fallback && plan.pinned_worker is Some {
        resolved(state, request, phase, plan.is_query_only, now)
    } else {
        state
    }
}

/// What to do after a selection that failed under `plan`.
pub open spec fn failed_selection(
    state: PushState,
    request: PreprocessedRequest,
    phase: RequestPhase,
    plan: SelectionPlan,
    now: Instant,
) -> FailedSelection {
    match bound_to(state, request, phase, now) {
        Some(token) => if plan.allow_sticky_fallback && plan.pinned_worker == Some(
            token.binding.worker,
        ) {
            FailedSelection::Recheck(BindingRecheck { token, plan })
        } else {
            FailedSelection::Reject
        },
        None => FailedSelection::Reject,
    }
}

/// A selection that is refused.
pub struct RefusedSelection {
    pub error: RouteError,
    /// The scheduler has booked the request, and the booking has to be freed.
    pub free_booking: bool,
}

/// Refuse a selection of another rank than the expected one.
pub fn reject_unexpected_final_target(
    request_id: &str,
    selection: &WorkerSelection,
    expected: WorkerWithDpRank,
) -> (checked: Result<(), RefusedSelection>)
    ensures
        match checked {
            Ok(_) => selection.spec_rank() == expected,
            Err(refused) => {
                &&& selection.spec_rank() != expected
                &&& refused.free_booking == selection.scheduler_tracked
                &&& refused.error matches RouteError::TargetMismatch {
                    request_id: named,
                    expected: wanted,
                    selected: got,
                }
                &&& named@ == request_id@
                &&& wanted == expected
                &&& got == selection.spec_rank()
            },
        },
{
    if selection.instance_id == expected.worker_id && selection.dp_rank == expected.dp_rank {
        return Ok(());
    }
    Err(
        RefusedSelection {
            error: RouteError::TargetMismatch {
                request_id: request_id.to_owned(),
                expected,
                selected: selection.rank(),
            },
            free_booking: selection.scheduler_tracked,
        },
    )
}

/// A routing decision to be recorded in the index.
#[derive(Clone, Debug)]
pub enum RoutingRecord {
    /// By the hashes of the request's blocks.
    Hashes { hashes: Vec<u64>, worker: WorkerWithDpRank },
    /// By the request's tokens.
    Tokens { lora_name: Option<String>, worker: WorkerWithDpRank },
}

/// The routing decision to be recorded, if the index records any. Hashes that
/// the scheduler computed are handed over and not kept.
pub fn track_selection(
    request: &PreprocessedRequest,
    selection: &mut WorkerSelection,
    records_routing_decisions: bool,
) -> (record: Option<RoutingRecord>)
    ensures
        !records_routing_decisions ==> record is None && *final(selection) == *old(selection),
        records_routing_decisions ==> match old(selection).routing_hashes {
            Some(computed) => {
                &&& record == Some(
                    RoutingRecord::Hashes { hashes: computed, worker: old(selection).spec_rank() },
                )
                &&& *final(selection) == (WorkerSelection {
                    routing_hashes: None,
                    ..*old(selection)
                })
            },
            None => {
                &&& *final(selection) == *old(selection)
                &&& record matches Some(RoutingRecord::Tokens { lora_name, worker })
                &&& worker == old(selection).spec_rank()
                &&& lora_name == match request.routing {
                    Some(routing) => routing.lora_name,
                    None => None,
                }
            },
        },
{
    if !records_routing_decisions {
        return None;
    }
    let worker = selection.rank();
    match selection.routing_hashes.take() {
        Some(hashes) => Some(RoutingRecord::Hashes { hashes, worker }),
        None => {
            let lora_name = match &request.routing {
                Some(routing) => match &routing.lora_name {
                    Some(name) => Some(name.clone()),
                    None => None,
                },
                None => None,
            };
            Some(RoutingRecord::Tokens { lora_name, worker })
        },
    }
}

/// The number of blocks of this size that hold this many tokens.
pub fn input_blocks(tokens: usize, block_size: usize) -> (blocks: usize)
    requires
        block_size > 0,
    ensures
        (blocks - 1) * block_size < tokens <= blocks * block_size,
{
    let full = tokens / block_size;
    let rest = tokens % block_size;
    proof {
        vstd::arithmetic::div_mod::lemma_fundamental_div_mod(tokens as int, block_size as int);
        let (t, b, f, r) = (tokens as int, block_size as int, full as int, rest as int);
        assert((f - 1) * b == b * f - b && (f + 1) * b == b * f + b && f * b == b * f)
            by (nonlinear_arith);
        assert(r > 0 ==> f < t) by (nonlinear_arith)
            requires
                b > 0,
                f >= 0,
                r >= 0,
                t == b * f + r,
        ;
    }
    if rest == 0 {
        full
    } else {
        full + 1
    }
}

/// What a request's tracker is told about a selection.
#[derive(Clone, Copy, Debug, PartialEq, Eq, Structural)]
pub struct TrackerRecord {
    pub input_blocks: usize,
    pub input_tokens: usize,
    pub cached_tokens: usize,
    pub worker: WorkerWithDpRank,
}

/// What the request's tracker is told about a selection, if the request carries
/// one. The request is routed by `routing_tokens` many tokens.
pub fn tracker_record(
    request: &PreprocessedRequest,
    selection: &WorkerSelection,
    routing_tokens: usize,
    block_size: usize,
) -> (record: Option<TrackerRecord>)
    requires
        request.tracker_phase is Some ==> block_size > 0,
    ensures
        match record {
            Some(told) => {
                &&& request.tracker_phase is Some
                &&& (told.input_blocks - 1) * block_size < routing_tokens <= told.input_blocks
                    * block_size
                &&& told.input_tokens == routing_tokens
                &&& told.cached_tokens == selection.cached_tokens
                &&& told.worker == selection.spec_rank()
            },
            None => request.tracker_phase is None,
        },
{
    if request.tracker_phase.is_none() {
        return None;
    }
    Some(
        TrackerRecord {
            input_blocks: input_blocks(routing_tokens, block_size),
            input_tokens: routing_tokens,
            cached_tokens: selection.cached_tokens,
            worker: selection.rank(),
        },
    )
}

/// What becomes of a request once a worker was selected for it.
#[derive(Clone, Copy, Debug, PartialEq, Eq, Structural)]
pub enum GenerateStep {
    /// The selection is the answer, see [`query_response`].
    Answer,
    /// The request is tracked and dispatched to the worker.
    Dispatch,
}

/// What becomes of a request once a worker was selected for it: one that only
/// asks where it would be routed is answered and not dispatched.
pub fn after_selection(request: &PreprocessedRequest) -> (step: GenerateStep)
    ensures
        step is Answer <==> request.query_instance_id is Some,
{
    if request.is_query_only() {
        GenerateStep::Answer
    } else {
        GenerateStep::Dispatch
    }
}

/// Name of the annotation that names the selected worker.
pub const WORKER_INSTANCE_ID_ANNOTATION: &'static str = "worker_instance_id";

/// Name of the annotation that carries the tokens of the request.
pub const TOKEN_DATA_ANNOTATION: &'static str = "token_data";

/// The answer to a request that only asks where it would be routed: the selected
/// worker and the tokens of the request as annotations, and a data frame with
/// the workers that the request's tracker names and the tokens.
pub fn query_response(
    request: &PreprocessedRequest,
    selection: &WorkerSelection,
    worker_id: Option<WorkerIdInfo>,
) -> (frames: Vec<Annotated>)
    ensures
        frames@.len() == 3,
        frames@[0].annotates(WORKER_INSTANCE_ID_ANNOTATION@),
        frames@[0].annotation == Some(AnnotationValue::WorkerId(selection.instance_id)),
        frames@[1].annotates(TOKEN_DATA_ANNOTATION@),
        ({
            &&& frames@[1].annotation matches Some(AnnotationValue::Tokens(tokens))
            &&& tokens@ == request.token_ids@
        }),
        !frames@[2].spec_fails(),
        frames@[2].event is None,
        frames@[2].annotation is None,
        ({
            &&& frames@[2].data matches Some(output)
            &&& output.finish_reason is None
            &&& output.extra_args is None
            &&& output.disaggregated_params is None
            &&& output.routing_data matches Some(data)
            &&& data.worker_id == worker_id
            &&& data.token_ids matches Some(tokens)
            &&& tokens@ == request.token_ids@
        }),
{
    let annotated = request.token_ids.clone();
    assert(annotated@ =~= request.token_ids@);
    let token_ids = request.token_ids.clone();
    assert(token_ids@ =~= request.token_ids@);
    let mut frames: Vec<Annotated> = Vec::new();
    frames.push(
        Annotated::from_annotation(
            WORKER_INSTANCE_ID_ANNOTATION,
            AnnotationValue::WorkerId(selection.instance_id),
        ),
    );
    frames.push(
        Annotated::from_annotation(TOKEN_DATA_ANNOTATION, AnnotationValue::Tokens(annotated)),
    );
    frames.push(
        Annotated::from_data(
            LLMEngineOutput {
                finish_reason: None,
                extra_args: None,
                disaggregated_params: None,
                routing_data: Some(RoutingData { worker_id, token_ids: Some(token_ids) }),
            },
        ),
    );
    frames
}

} // verus!
