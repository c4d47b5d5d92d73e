//! Coordination layer for sticky routing and backend session lifecycle.

use vstd::prelude::*;

use crate::maps;
use crate::protocols::{
    PreprocessedRequest, RequestPhase, RoutingHints, SessionAction, WorkerWithDpRank,
};
use crate::sticky::revisions::AffinityRevisions;
use crate::sticky::router::{
    AffinityBinding, AffinityBindingToken, AffinityKind, AffinityRebindToken,
    InMemoryAffinityStore, StickySessionRouter,
};
use crate::sticky::state::{AffinityState, CoordinatorState, RouterState};
use crate::time::{Duration, Instant};

verus! {

/// The worker-side session that has to be closed, and where.
#[derive(Clone, Debug)]
pub struct SessionCloseAction {
    pub session_id: String,
    pub worker_id: u64,
}

/// Which session has to be closed on which worker.
pub open spec fn closes(action: Option<SessionCloseAction>) -> Option<(Seq<char>, u64)> {
    match action {
        Some(close) => Some((close.session_id@, close.worker_id)),
        None => None,
    }
}

/// What routing a request did to its session.
pub struct SessionRoutingResult {
    /// To be closed when the request is done.
    pub deferred_close: Option<SessionCloseAction>,
    /// How to undo the routing if the dispatch fails.
    pub rollback: Option<SessionRoutingRollback>,
}

/// How to undo what routing a request did to its session.
pub struct SessionRoutingRollback {
    session_id: String,
    binding_token: AffinityBindingToken,
    close_opened_session: Option<SessionCloseAction>,
}

impl SessionRoutingRollback {
    /// The session that the routing bound.
    pub closed spec fn session(&self) -> Seq<char> {
        self.session_id@
    }

    /// The binding that the routing made.
    pub closed spec fn token(&self) -> AffinityBindingToken {
        self.binding_token
    }

    /// The worker-side session that the routing opened.
    pub closed spec fn closes(&self) -> Option<(Seq<char>, u64)> {
        closes(self.close_opened_session)
    }
}

/// The worker is to open a session, before it is bound.
pub struct SessionOpen {
    pub session_id: String,
    pub timeout: u64,
    pub worker: WorkerWithDpRank,
}

/// A worker-side session may have to be closed later: it is to be found out
/// whether its worker takes such calls.
pub struct SessionCloseProbe {
    pub close: SessionCloseAction,
    /// The binding of a session that was just opened. Without it the close ends
    /// the session when the request is done.
    pub opened: Option<AffinityBindingToken>,
}

/// What is left to do for a request that was routed.
pub enum RoutedStep {
    Done(SessionRoutingResult),
    /// To be answered by [`StickySessionCoordinator::on_session_opened`].
    Open(SessionOpen),
    /// To be answered by [`on_close_probed`].
    Probe(SessionCloseProbe),
}

/// Owns a shadow rebind until the backend confirms cold prefill completion.
/// It is settled by [`SessionRebindGuard::commit`] or, without confirmation, by
/// [`SessionRebindGuard::abandon`].
pub struct SessionRebindGuard {
    session_id: String,
    token: AffinityRebindToken,
}

impl SessionRebindGuard {
    /// The session that is rebound.
    pub closed spec fn session(&self) -> Seq<char> {
        self.session_id@
    }

    /// The transition that is pending.
    pub closed spec fn token(&self) -> AffinityRebindToken {
        self.token
    }

    /// Whether the rebind count of the session leaves room for one more.
    pub fn is_countable(&self, sticky: &StickySessionCoordinator) -> (room: bool)
        ensures
            room == (sticky.state().router.rebinds(self.session()) < u32::MAX),
    {
        sticky.rebind_count(self.session_id.as_str()) < u32::MAX
    }

    /// Publish the cold binding if the transition is still current; discard it
    /// otherwise.
    pub fn commit_at(self, sticky: &mut StickySessionCoordinator, now: Instant) -> (committed: bool)
        requires
            now.in_range(),
            old(sticky).state().router.store.can_commit(self.session(), self.token(), now) ==> old(
                sticky,
            ).state().router.rebinds(self.session()) < u32::MAX,
        ensures
            committed == old(sticky).state().router.store.can_commit(
                self.session(),
                self.token(),
                now,
            ),
            final(sticky).state() == old(sticky).state().settled(self.session(), self.token(), now),
    {
        if sticky.router.commit_rebind_at(self.session_id.as_str(), self.token, now) {
            true
        } else {
            sticky.router.rollback_rebind_at(self.session_id.as_str(), self.token, now);
            false
        }
    }

    /// Publish the cold binding if the transition is still current; discard it
    /// otherwise.
    pub fn commit(self, sticky: &mut StickySessionCoordinator) -> (committed: bool)
        requires
            old(sticky).state().router.store.can_roll_back(self.session(), self.token()) ==> old(
                sticky,
            ).state().router.rebinds(self.session()) < u32::MAX,
        ensures
            exists|now: Instant| #[trigger]
                old(sticky).shows(now) && now.in_range() && committed == old(sticky).state().router.store.can_commit(
                    self.session(),
                    self.token(),
                    now,
                ) && final(sticky).state() == old(sticky).state().settled(
                    self.session(),
                    self.token(),
                    now,
                ),
    {
        let now = sticky.now();
        self.commit_at(sticky, now)
    }

    /// Discard the pending binding.
    pub fn abandon_at(self, sticky: &mut StickySessionCoordinator, now: Instant)
        ensures
            final(sticky).state() == old(sticky).state().abandoned(
                self.session(),
                self.token(),
                now,
            ),
    {
        sticky.router.rollback_rebind_at(self.session_id.as_str(), self.token, now);
    }

    /// Discard the pending binding.
    pub fn abandon(self, sticky: &mut StickySessionCoordinator)
        ensures
            exists|now: Instant| #[trigger]
                old(sticky).shows(now) && now.in_range() && final(sticky).state() == old(sticky).state().abandoned(
                    self.session(),
                    self.token(),
                    now,
                ),
    {
        let now = sticky.now();
        self.abandon_at(sticky, now);
    }
}

/// Serializes prefill turns for one sticky session on this frontend.
///
/// A rebind snapshots the hot prefix and may publish a cold owner when prefill
/// completes. Allowing another turn to mutate the hot owner in that window can
/// make the cold snapshot stale even when the affinity revision itself did not
/// change. Only the turn owner is rebind-eligible.
pub struct SessionTurnGuard {
    session_id: String,
    owner: String,
}

impl SessionTurnGuard {
    /// The session whose turn is owned.
    pub closed spec fn session(&self) -> Seq<char> {
        self.session_id@
    }

    /// The request that owns the turn.
    pub closed spec fn owner(&self) -> Seq<char> {
        self.owner@
    }

    /// Give the turn back, unless it belongs to another request by now.
    pub fn release(self, sticky: &mut StickySessionCoordinator)
        ensures
            final(sticky).state() == old(sticky).state().turn_released(
                self.session(),
                self.owner(),
            ),
    {
        match maps::owners_get(&sticky.prefill_turns, self.session_id.as_str()) {
            Some(owner) => {
                if owner == self.owner {
                    maps::owners_remove(&mut sticky.prefill_turns, self.session_id.as_str());
                }
            },
            None => {},
        }
    }
}

/// Outcome of a turn-ownership attempt for a sticky session.
pub enum TurnAcquisition {
    /// Request has no sticky turn semantics for this phase.
    NotApplicable,
    /// This request now owns the session's turn and is rebind-eligible.
    Owner(SessionTurnGuard),
    /// Another request owns the turn. Rebind evaluation must be skipped, so
    /// that the owner's snapshot window cannot be raced.
    Overlap { current_owner: String },
}

/// Sticky routing decisions and session lifecycle of one frontend.
pub struct StickySessionCoordinator {
    router: StickySessionRouter<InMemoryAffinityStore>,
    prefill_turns: dashmap::DashMap<String, String>,
}

impl StickySessionCoordinator {
    /// What the coordinator holds.
    pub closed spec fn state(&self) -> CoordinatorState {
        CoordinatorState {
            router: self.router.state(),
            turns: maps::owner_entries(self.prefill_turns),
        }
    }

    /// A coordinator without sessions, whose expired engine-backed sessions are
    /// announced.
    pub fn new() -> (sticky: StickySessionCoordinator)
        ensures
            sticky.state() == (CoordinatorState {
                router: RouterState::around(
                    AffinityState::empty(true),
                    sticky.state().router.epoch,
                ),
                turns: Map::empty(),
            }),
    {
        StickySessionCoordinator {
            router: StickySessionRouter::new(InMemoryAffinityStore::new_with_on_expire(true)),
            prefill_turns: maps::owners_new(),
        }
    }

    /// The coordinator's clock shows this point in time at some moment.
    pub open spec fn shows(&self, now: Instant) -> bool {
        self.state().router.shows(now)
    }

    /// The present moment on the coordinator's clock.
    pub fn now(&self) -> (now: Instant)
        ensures
            self.shows(now),
            now.in_range(),
    {
        self.router.now()
    }

    /// Acquire ownership of a sticky session turn for `phase`.
    /// Requests without session control do not need a guard.
    pub fn acquire_turn_for_phase(
        &mut self,
        request: &PreprocessedRequest,
        phase: RequestPhase,
        owner: &str,
    ) -> (turn: TurnAcquisition)
        ensures
            match turn_session(*request) {
                Some(session) => if old(self).state().turns.contains_key(session) {
                    &&& turn matches TurnAcquisition::Overlap { current_owner }
                    &&& current_owner@ == old(self).state().turns[session]
                    &&& final(self).state() == old(self).state()
                } else {
                    &&& turn matches TurnAcquisition::Owner(guard)
                    &&& guard.session() == session
                    &&& guard.owner() == owner@
                    &&& final(self).state() == old(self).state().turn_taken(session, owner@)
                },
                None => turn is NotApplicable && final(self).state() == old(self).state(),
            },
    {
        let session_id = match turn_session_id_for_phase(request, phase) {
            Some(session_id) => session_id,
            None => {
                return TurnAcquisition::NotApplicable;
            },
        };
        match maps::owners_get(&self.prefill_turns, session_id) {
            Some(current_owner) => TurnAcquisition::Overlap { current_owner },
            None => {
                maps::owners_insert(
                    &mut self.prefill_turns,
                    session_id.to_owned(),
                    owner.to_owned(),
                );
                TurnAcquisition::Owner(
                    SessionTurnGuard { session_id: session_id.to_owned(), owner: owner.to_owned() },
                )
            },
        }
    }

    /// The target that the session of the request is bound to.
    pub fn worker_for_phase_at(
        &mut self,
        request: &PreprocessedRequest,
        phase: RequestPhase,
        now: Instant,
    ) -> (worker: Option<WorkerWithDpRank>)
        ensures
            match binding_session(*request, phase) {
                Some(session) => {
                    &&& worker == old(self).state().router.store.target(session, now)
                    &&& final(self).state() == old(self).state().with_store(
                        old(self).state().router.store.peeked(session, now),
                    )
                },
                None => worker is None && final(self).state() == old(self).state(),
            },
    {
        match binding_session_id_for_phase(request, phase) {
            Some(session_id) => self.router.peek_session_at(session_id, now),
            None => None,
        }
    }

    /// The target that the session of the request is bound to.
    pub fn worker_for_phase(&mut self, request: &PreprocessedRequest, phase: RequestPhase) -> (worker:
        Option<WorkerWithDpRank>)
        ensures
            match binding_session(*request, phase) {
                Some(session) => exists|now: Instant| #[trigger]
                    old(self).shows(now) && now.in_range() && worker == old(self).state().router.store.target(session, now)
                        && final(self).state() == old(self).state().with_store(
                        old(self).state().router.store.peeked(session, now),
                    ),
                None => worker is None && final(self).state() == old(self).state(),
            },
    {
        let now = self.now();
        self.worker_for_phase_at(request, phase, now)
    }

    /// The visible binding and its revision. Lifecycle actions intentionally
    /// resolve an existing owner even when the request carries new constraints
    /// or explicit pins.
    pub fn binding_token_for_phase_at(
        &mut self,
        request: &PreprocessedRequest,
        phase: RequestPhase,
        now: Instant,
    ) -> (token: Option<AffinityBindingToken>)
        ensures
            match binding_session(*request, phase) {
                Some(session) => {
                    &&& token == old(self).state().router.store.visible(session, now)
                    &&& final(self).state() == old(self).state().with_store(
                        old(self).state().router.store.peeked(session, now),
                    )
                },
                None => token is None && final(self).state() == old(self).state(),
            },
    {
        match binding_session_id_for_phase(request, phase) {
            Some(session_id) => self.router.peek_binding_token_at(session_id, now),
            None => None,
        }
    }

    /// The visible binding and its revision.
    pub fn binding_token_for_phase(
        &mut self,
        request: &PreprocessedRequest,
        phase: RequestPhase,
    ) -> (token: Option<AffinityBindingToken>)
        ensures
            match binding_session(*request, phase) {
                Some(session) => exists|now: Instant| #[trigger]
                    old(self).shows(now) && now.in_range() && token == old(self).state().router.store.visible(session, now)
                        && final(self).state() == old(self).state().with_store(
                        old(self).state().router.store.peeked(session, now),
                    ),
                None => token is None && final(self).state() == old(self).state(),
            },
    {
        let now = self.now();
        self.binding_token_for_phase_at(request, phase, now)
    }

    /// The visible binding and its revision, for a request that only asks.
    /// Nothing changes: an expired binding is left for the next sweep.
    pub fn visible_token_for_phase_at(
        &self,
        request: &PreprocessedRequest,
        phase: RequestPhase,
        now: Instant,
    ) -> (token: Option<AffinityBindingToken>)
        ensures
            token == match binding_session(*request, phase) {
                Some(session) => self.state().router.store.visible(session, now),
                None => None,
            },
    {
        match binding_session_id_for_phase(request, phase) {
            Some(session_id) => self.router.visible_token_at(session_id, now),
            None => None,
        }
    }

    /// Whether the request's session is still bound as `token` says.
    pub fn holds_token_for_phase(
        &self,
        request: &PreprocessedRequest,
        phase: RequestPhase,
        token: AffinityBindingToken,
    ) -> (held: bool)
        ensures
            held == match binding_session(*request, phase) {
                Some(session) => self.state().router.store.holds(session, token),
                None => false,
            },
    {
        match binding_session_id_for_phase(request, phase) {
            Some(session_id) => self.router.holds_token(session_id, token),
            None => false,
        }
    }

    /// Phase-gated sticky session id for this request, or `None` when sticky
    /// routing is not applicable (no session control, or explicit pins set).
    pub fn session_id_for_phase<'a>(&self, request: &'a PreprocessedRequest, phase: RequestPhase) -> (id:
        Option<&'a str>)
        ensures
            named(id) == sticky_session(*request, phase),
    {
        sticky_session_id_for_phase(request, phase)
    }

    /// A stable revision for a rebind decision. A pending transition is
    /// deliberately not eligible for another rebind.
    pub fn rebind_token_for_phase_at(
        &mut self,
        request: &PreprocessedRequest,
        phase: RequestPhase,
        now: Instant,
    ) -> (token: Option<AffinityBindingToken>)
        ensures
            match sticky_session(*request, phase) {
                Some(session) => {
                    &&& token == old(self).state().router.store.rebindable(session, now)
                    &&& final(self).state() == old(self).state().with_store(
                        old(self).state().router.store.rebind_peeked(session, now),
                    )
                },
                None => token is None && final(self).state() == old(self).state(),
            },
    {
        match sticky_session_id_for_phase(request, phase) {
            Some(session_id) => self.router.peek_rebind_token_at(session_id, now),
            None => None,
        }
    }

    /// A stable revision for a rebind decision.
    pub fn rebind_token_for_phase(
        &mut self,
        request: &PreprocessedRequest,
        phase: RequestPhase,
    ) -> (token: Option<AffinityBindingToken>)
        ensures
            match sticky_session(*request, phase) {
                Some(session) => exists|now: Instant| #[trigger]
                    old(self).shows(now) && now.in_range() && token == old(self).state().router.store.rebindable(
                        session,
                        now,
                    ) && final(self).state() == old(self).state().with_store(
                        old(self).state().router.store.rebind_peeked(session, now),
                    ),
                None => token is None && final(self).state() == old(self).state(),
            },
    {
        let now = self.now();
        self.rebind_token_for_phase_at(request, phase, now)
    }

    /// Prepare a shadow rebind. The old binding remains visible until the
    /// returned guard is committed after cold prefill completion.
    pub fn begin_rebind_at(
        &mut self,
        session_id: &str,
        expected: AffinityBindingToken,
        cold: WorkerWithDpRank,
        ttl: Duration,
        now: Instant,
        revisions: &mut AffinityRevisions,
    ) -> (guard: Option<SessionRebindGuard>)
        ensures
            match guard {
                Some(pending) => {
                    &&& old(self).state().router.can_begin(session_id@, expected, cold, now)
                    &&& pending.session() == session_id@
                    &&& pending.token() == AffinityState::rebind_token(
                        expected,
                        cold,
                        old(revisions).next(),
                    )
                },
                None => !old(self).state().router.can_begin(session_id@, expected, cold, now),
            },
            final(self).state() == old(self).state().with_router(
                old(self).state().router.begun(
                    session_id@,
                    expected,
                    cold,
                    ttl,
                    old(revisions).next(),
                    now,
                ),
            ),
            final(revisions).next() == old(revisions).after(guard is Some),
    {
        match self.router.begin_rebind_at(session_id, expected, cold, ttl, now, revisions) {
            Some(token) => Some(SessionRebindGuard { session_id: session_id.to_owned(), token }),
            None => None,
        }
    }

    /// Prepare a shadow rebind.
    pub fn begin_rebind(
        &mut self,
        session_id: &str,
        expected: AffinityBindingToken,
        cold: WorkerWithDpRank,
        ttl: Duration,
        revisions: &mut AffinityRevisions,
    ) -> (guard: Option<SessionRebindGuard>)
        ensures
            exists|now: Instant| #[trigger]
                old(self).shows(now) && now.in_range() && (match guard {
                    Some(pending) => {
                        &&& old(self).state().router.can_begin(session_id@, expected, cold, now)
                        &&& pending.session() == session_id@
                        &&& pending.token() == AffinityState::rebind_token(
                            expected,
                            cold,
                            old(revisions).next(),
                        )
                    },
                    None => !old(self).state().router.can_begin(session_id@, expected, cold, now),
                }) && final(self).state() == old(self).state().with_router(
                    old(self).state().router.begun(
                        session_id@,
                        expected,
                        cold,
                        ttl,
                        old(revisions).next(),
                        now,
                    ),
                ),
            final(revisions).next() == old(revisions).after(guard is Some),
    {
        let now = self.now();
        self.begin_rebind_at(session_id, expected, cold, ttl, now, revisions)
    }

    /// Whether `session_id` was rebound within `cooldown`.
    pub fn in_rebind_cooldown_at(
        &self,
        session_id: &str,
        cooldown: Duration,
        now: Instant,
    ) -> (cooling: bool)
        ensures
            cooling == self.state().router.cooling(session_id@, cooldown, now),
    {
        self.router.in_rebind_cooldown_at(session_id, cooldown, now)
    }

    /// Whether `session_id` was rebound within `cooldown`.
    pub fn in_rebind_cooldown(&self, session_id: &str, cooldown: Duration) -> (cooling: bool)
        ensures
            exists|now: Instant| #[trigger]
                self.shows(now) && now.in_range() && cooling == self.state().router.cooling(
                    session_id@,
                    cooldown,
                    now,
                ),
    {
        let now = self.now();
        self.in_rebind_cooldown_at(session_id, cooldown, now)
    }

    /// Committed rebind count for `session_id`; input to the bounce cap.
    pub fn rebind_count(&self, session_id: &str) -> (count: u32)
        ensures
            count == self.state().router.rebinds(session_id@),
    {
        self.router.rebind_count(session_id)
    }

    /// Start the time to live of the request's session anew, unless the request
    /// carries a lifecycle action.
    pub fn refresh_worker_for_phase_at(
        &mut self,
        request: &PreprocessedRequest,
        phase: RequestPhase,
        now: Instant,
    )
        requires
            now.in_range(),
        ensures
            final(self).state() == match sticky_session(*request, phase) {
                Some(session) => if request.spec_has_action() {
                    old(self).state()
                } else {
                    old(self).state().with_store(
                        old(self).state().router.store.refreshed(session, now),
                    )
                },
                None => old(self).state(),
            },
    {
        match sticky_session_id_for_phase(request, phase) {
            Some(session_id) => {
                if !request.has_session_action() {
                    self.router.resolve_session_at(session_id, now);
                }
            },
            None => {},
        }
    }

    /// Start the time to live of the request's session anew, unless the request
    /// carries a lifecycle action.
    pub fn refresh_worker_for_phase(&mut self, request: &PreprocessedRequest, phase: RequestPhase)
        ensures
            match sticky_session(*request, phase) {
                Some(session) => if request.spec_has_action() {
                    final(self).state() == old(self).state()
                } else {
                    exists|now: Instant| #[trigger]
                        old(self).shows(now) && now.in_range() && final(self).state() == old(self).state().with_store(
                            old(self).state().router.store.refreshed(session, now),
                        )
                },
                None => final(self).state() == old(self).state(),
            },
    {
        let now = self.now();
        self.refresh_worker_for_phase_at(request, phase, now);
    }

    /// Remove the binding of the request's session, and return both.
    pub fn unbind_for_phase<'a>(
        &mut self,
        request: &'a PreprocessedRequest,
        phase: RequestPhase,
    ) -> (unbound: Option<(&'a str, Option<AffinityBinding>)>)
        ensures
            match sticky_session(*request, phase) {
                Some(session) => {
                    &&& unbound matches Some((id, binding))
                    &&& id@ == session
                    &&& binding == old(self).state().router.store.stored_binding(session)
                    &&& final(self).state() == old(self).state().with_store(
                        old(self).state().router.store.removed(session),
                    )
                },
                None => unbound is None && final(self).state() == old(self).state(),
            },
    {
        match sticky_session_id_for_phase(request, phase) {
            Some(session_id) => Some((session_id, self.router.unbind(session_id))),
            None => None,
        }
    }

    /// Remove the binding of the request's session if it is still the one that
    /// `token` stands for.
    pub fn unbind_if_token_for_phase(
        &mut self,
        request: &PreprocessedRequest,
        phase: RequestPhase,
        token: AffinityBindingToken,
    ) -> (removed: bool)
        ensures
            match binding_session(*request, phase) {
                Some(session) => {
                    &&& removed == old(self).state().router.store.holds(session, token)
                    &&& final(self).state() == old(self).state().with_store(
                        old(self).state().router.store.removed_if(session, token),
                    )
                },
                None => !removed && final(self).state() == old(self).state(),
            },
    {
        match binding_session_id_for_phase(request, phase) {
            Some(session_id) => self.router.unbind_if_token(session_id, token),
            None => false,
        }
    }

    /// Apply the lifecycle action of a request that was routed to `worker`.
    ///
    /// A bind takes effect at once, and so does the removal that a close brings.
    /// An open waits for the worker. A session that only the router knows is
    /// closed without the worker; one that no binding was left for is closed on
    /// the worker that the request went to.
    pub fn on_routed_at(
        &mut self,
        request: &PreprocessedRequest,
        worker: WorkerWithDpRank,
        now: Instant,
        revisions: &mut AffinityRevisions,
    ) -> (step: RoutedStep)
        requires
            now.in_range(),
        ensures
            routes(
                old(self).state(),
                *request,
                worker,
                old(revisions).next(),
                now,
                step,
                final(self).state(),
            ),
            final(revisions).next() == old(revisions).after(binds(*request)),
    {
        let control = match request.session_control() {
            Some(control) => control,
            None => {
                return RoutedStep::Done(
                    SessionRoutingResult { deferred_close: None, rollback: None },
                );
            },
        };
        let action = match control.action {
            Some(action) => action,
            None => {
                return RoutedStep::Done(
                    SessionRoutingResult { deferred_close: None, rollback: None },
                );
            },
        };
        match action {
            SessionAction::Open => RoutedStep::Open(
                SessionOpen {
                    session_id: control.session_id.clone(),
                    timeout: control.timeout,
                    worker,
                },
            ),
            SessionAction::Bind => {
                let binding_token = self.router.bind_at(
                    control.session_id.as_str(),
                    worker,
                    Duration::from_secs(control.timeout),
                    AffinityKind::RouterOnly,
                    now,
                    revisions,
                );
                RoutedStep::Done(
                    SessionRoutingResult {
                        deferred_close: None,
                        rollback: Some(
                            SessionRoutingRollback {
                                session_id: control.session_id.clone(),
                                binding_token,
                                close_opened_session: None,
                            },
                        ),
                    },
                )
            },
            SessionAction::Close => {
                let removed = self.router.unbind(control.session_id.as_str());
                let close_worker_id: u64 = match removed {
                    Some(binding) => {
                        if binding.kind != AffinityKind::EngineBacked {
                            return RoutedStep::Done(
                                SessionRoutingResult { deferred_close: None, rollback: None },
                            );
                        }
                        binding.worker.worker_id
                    },
                    None => worker.worker_id,
                };
                RoutedStep::Probe(
                    SessionCloseProbe {
                        close: SessionCloseAction {
                            session_id: control.session_id.clone(),
                            worker_id: close_worker_id,
                        },
                        opened: None,
                    },
                )
            },
        }
    }

    /// Apply the lifecycle action of a request that was routed to `worker`.
    pub fn on_routed(
        &mut self,
        request: &PreprocessedRequest,
        worker: WorkerWithDpRank,
        revisions: &mut AffinityRevisions,
    ) -> (step: RoutedStep)
        ensures
            exists|now: Instant| #[trigger]
                old(self).shows(now) && now.in_range() && routes(
                    old(self).state(),
                    *request,
                    worker,
                    old(revisions).next(),
                    now,
                    step,
                    final(self).state(),
                ),
            final(revisions).next() == old(revisions).after(binds(*request)),
    {
        let now = self.now();
        self.on_routed_at(request, worker, now, revisions)
    }

    /// Go on after the worker was asked to open a session. Only a session that
    /// the worker has opened is bound.
    pub fn on_session_opened_at(
        &mut self,
        open: SessionOpen,
        opened: bool,
        now: Instant,
        revisions: &mut AffinityRevisions,
    ) -> (step: RoutedStep)
        requires
            now.in_range(),
        ensures
            opens(
                old(self).state(),
                open,
                opened,
                old(revisions).next(),
                now,
                step,
                final(self).state(),
            ),
            final(revisions).next() == old(revisions).after(opened),
    {
        if !opened {
            return RoutedStep::Done(SessionRoutingResult { deferred_close: None, rollback: None });
        }
        let binding_token = self.router.bind_at(
            open.session_id.as_str(),
            open.worker,
            Duration::from_secs(open.timeout),
            AffinityKind::EngineBacked,
            now,
            revisions,
        );
        RoutedStep::Probe(
            SessionCloseProbe {
                close: SessionCloseAction {
                    session_id: open.session_id,
                    worker_id: open.worker.worker_id,
                },
                opened: Some(binding_token),
            },
        )
    }

    /// Go on after the worker was asked to open a session.
    pub fn on_session_opened(
        &mut self,
        open: SessionOpen,
        opened: bool,
        revisions: &mut AffinityRevisions,
    ) -> (step: RoutedStep)
        ensures
            exists|now: Instant| #[trigger]
                old(self).shows(now) && now.in_range() && opens(
                    old(self).state(),
                    open,
                    opened,
                    old(revisions).next(),
                    now,
                    step,
                    final(self).state(),
                ),
            final(revisions).next() == old(revisions).after(opened),
    {
        let now = self.now();
        self.on_session_opened_at(open, opened, now, revisions)
    }

    /// Undo what routing a request did to its session. A newer binding stays.
    /// The session that the routing opened, if any, is to be closed.
    pub fn rollback_routed(&mut self, rollback: SessionRoutingRollback) -> (close: Option<
        SessionCloseAction,
    >)
        ensures
            closes(close) == rollback.closes(),
            final(self).state() == old(self).state().with_store(
                old(self).state().router.store.removed_if(rollback.session(), rollback.token()),
            ),
    {
        self.router.unbind_if_token(rollback.session_id.as_str(), rollback.binding_token);
        rollback.close_opened_session
    }

    /// Remove the expired bindings.
    pub fn reap_expired_at(&mut self, now: Instant)
        ensures
            old(self).state().router.store.sweeps_to(final(self).state().router.store, now),
            final(self).state() == old(self).state().with_store(final(self).state().router.store),
    {
        self.router.reap_expired_at(now);
    }

    /// Remove the expired bindings.
    pub fn reap_expired(&mut self)
        ensures
            exists|now: Instant| #[trigger]
                old(self).shows(now) && now.in_range() && old(self).state().router.store.sweeps_to(
                    final(self).state().router.store,
                    now,
                ),
            final(self).state() == old(self).state().with_store(final(self).state().router.store),
    {
        let now = self.now();
        self.reap_expired_at(now);
    }

    /// Hand over the sessions that expired and have to be closed, each with the
    /// worker that holds it.
    pub fn take_expired(&mut self) -> (listed: Vec<(String, u64)>)
        ensures
            crate::sticky::router::notices(listed@) == old(self).state().router.store.expired,
            final(self).state() == old(self).state().with_store(
                (AffinityState { expired: Seq::empty(), ..old(self).state().router.store }),
            ),
    {
        self.router.take_expired()
    }
}

/// A coordinator can always rebind sessions.
pub proof fn law_coordinator_moves_sessions(sticky: &StickySessionCoordinator)
    ensures
        sticky.state().router.store.atomic_rebind,
{
    crate::sticky::router::law_router_in_memory_moves_sessions(&sticky.router);
}

/// Nothing is left to do, to close or to undo.
pub open spec fn nothing_left(step: RoutedStep) -> bool {
    step matches RoutedStep::Done(result) && result.deferred_close is None
        && result.rollback is None
}

/// Routing the request binds its session at once.
pub open spec fn binds(request: PreprocessedRequest) -> bool {
    request.spec_has_action() && request.spec_session_control()->0.action == Some(
        SessionAction::Bind,
    )
}

/// `step` and `after` are what comes of routing `request` to `worker`. A binding
/// that is made gets `revision`.
pub open spec fn routes(
    before: CoordinatorState,
    request: PreprocessedRequest,
    worker: WorkerWithDpRank,
    revision: u64,
    now: Instant,
    step: RoutedStep,
    after: CoordinatorState,
) -> bool {
    if !request.spec_has_action() {
        nothing_left(step) && after == before
    } else {
        let control = request.spec_session_control()->0;
        let session = control.session_id@;
        let store = before.router.store;
        match control.action->0 {
            SessionAction::Open => {
                &&& step matches RoutedStep::Open(open)
                &&& open.session_id@ == session
                &&& open.timeout == control.timeout
                &&& open.worker == worker
                &&& after == before
            },
            SessionAction::Bind => {
                &&& step matches RoutedStep::Done(result)
                &&& result.deferred_close is None
                &&& result.rollback matches Some(rollback)
                &&& rollback.session() == session
                &&& rollback.token() == AffinityState::binding_token(
                    worker,
                    AffinityKind::RouterOnly,
                    revision,
                )
                &&& rollback.closes() is None
                &&& after == before.with_store(
                    store.put(
                        session,
                        worker,
                        Duration::spec_from_secs(control.timeout),
                        AffinityKind::RouterOnly,
                        revision,
                        now,
                    ),
                )
            },
            SessionAction::Close => {
                &&& after == before.with_store(store.removed(session))
                &&& match store.stored_binding(session) {
                    Some(binding) => if binding.kind == AffinityKind::EngineBacked {
                        probes(step, session, binding.worker.worker_id, None)
                    } else {
                        nothing_left(step)
                    },
                    None => probes(step, session, worker.worker_id, None),
                }
            },
        }
    }
}

/// The step is to find out whether the session can be closed on the worker.
pub open spec fn probes(
    step: RoutedStep,
    session: Seq<char>,
    worker_id: u64,
    opened: Option<AffinityBindingToken>,
) -> bool {
    &&& step matches RoutedStep::Probe(probe)
    &&& probe.close.session_id@ == session
    &&& probe.close.worker_id == worker_id
    &&& probe.opened == opened
}

/// `step` and `after` are what comes of the worker's answer to an open. A
/// binding that is made gets `revision`.
pub open spec fn opens(
    before: CoordinatorState,
    open: SessionOpen,
    opened: bool,
    revision: u64,
    now: Instant,
    step: RoutedStep,
    after: CoordinatorState,
) -> bool {
    let store = before.router.store;
    if opened {
        &&& probes(
            step,
            open.session_id@,
            open.worker.worker_id,
            Some(
                AffinityState::binding_token(open.worker, AffinityKind::EngineBacked, revision),
            ),
        )
        &&& after == before.with_store(
            store.put(
                open.session_id@,
                open.worker,
                Duration::spec_from_secs(open.timeout),
                AffinityKind::EngineBacked,
                revision,
                now,
            ),
        )
    } else {
        nothing_left(step) && after == before
    }
}

/// The outcome of routing once it is known whether the worker takes calls that
/// close a session. A session that was just opened is closed only if the
/// routing is undone.
pub fn on_close_probed(probe: SessionCloseProbe, available: bool) -> (result: SessionRoutingResult)
    ensures
        ({
            let close = if available {
                closes(Some(probe.close))
            } else {
                None
            };
            match probe.opened {
                Some(token) => {
                    &&& result.deferred_close is None
                    &&& result.rollback matches Some(rollback)
                    &&& rollback.session() == probe.close.session_id@
                    &&& rollback.token() == token
                    &&& rollback.closes() == close
                },
                None => closes(result.deferred_close) == close && result.rollback is None,
            }
        }),
{
    let session_id = probe.close.session_id.clone();
    let close = if available {
        Some(probe.close)
    } else {
        None
    };
    match probe.opened {
        Some(binding_token) => SessionRoutingResult {
            deferred_close: None,
            rollback: Some(
                SessionRoutingRollback { session_id, binding_token, close_opened_session: close },
            ),
        },
        None => SessionRoutingResult { deferred_close: close, rollback: None },
    }
}

/// What a session id names, if there is one.
pub open spec fn named(id: Option<&str>) -> Option<Seq<char>> {
    match id {
        Some(id) => Some(id@),
        None => None,
    }
}

/// Sticky target selection applies: the request is part of a session and does
/// not itself name the target for this phase.
pub open spec fn sticky_allowed(phase: RequestPhase, routing: RoutingHints) -> bool {
    &&& routing.session_control is Some
    &&& routing.backend_instance_id is None
    &&& phase == RequestPhase::Prefill ==> routing.prefill_worker_id is None
        && routing.prefill_dp_rank is None
    &&& phase == RequestPhase::Decode ==> routing.decode_worker_id is None
    &&& phase != RequestPhase::Prefill ==> routing.dp_rank is None
}

/// The session whose binding decides the target of the request.
pub open spec fn sticky_session(request: PreprocessedRequest, phase: RequestPhase) -> Option<
    Seq<char>,
> {
    match request.routing {
        Some(routing) => if sticky_allowed(phase, routing) {
            Some(routing.session_control->0.session_id@)
        } else {
            None
        },
        None => None,
    }
}

/// The session that the request takes part in. Explicit pins disable sticky
/// target selection, but the request still mutates the same engine session and
/// must remain serialized with it.
pub open spec fn turn_session(request: PreprocessedRequest) -> Option<Seq<char>> {
    match request.spec_session_control() {
        Some(control) => Some(control.session_id@),
        None => None,
    }
}

/// The session whose existing binding the request belongs to. A lifecycle
/// action belongs to the worker that owns the session: a close must not be
/// redirected before the old engine session is freed, even if the request
/// carries new routing constraints.
pub open spec fn binding_session(request: PreprocessedRequest, phase: RequestPhase) -> Option<
    Seq<char>,
> {
    if request.spec_has_action() {
        turn_session(request)
    } else {
        sticky_session(request, phase)
    }
}

/// Whether sticky target selection applies to a request with these hints.
pub fn sticky_allowed_for_phase(phase: RequestPhase, routing: Option<&RoutingHints>) -> (allowed:
    bool)
    ensures
        allowed == (routing is Some && sticky_allowed(phase, *routing->0)),
{
    let routing = match routing {
        Some(routing) => routing,
        None => {
            return false;
        },
    };
    if routing.session_control.is_none() {
        return false;
    }
    match phase {
        RequestPhase::Prefill => routing.prefill_worker_id.is_none()
            && routing.prefill_dp_rank.is_none() && routing.backend_instance_id.is_none(),
        RequestPhase::Decode => routing.decode_worker_id.is_none() && routing.dp_rank.is_none()
            && routing.backend_instance_id.is_none(),
        RequestPhase::Aggregated => routing.backend_instance_id.is_none()
            && routing.dp_rank.is_none(),
    }
}

/// The session whose binding decides the target of the request.
pub fn sticky_session_id_for_phase(request: &PreprocessedRequest, phase: RequestPhase) -> (id:
    Option<&str>)
    ensures
        named(id) == sticky_session(*request, phase),
{
    match &request.routing {
        Some(routing) => {
            if !sticky_allowed_for_phase(phase, Some(routing)) {
                return None;
            }
            match &routing.session_control {
                Some(control) => Some(control.session_id.as_str()),
                None => None,
            }
        },
        None => None,
    }
}

/// The session that the request takes part in.
pub fn turn_session_id_for_phase(request: &PreprocessedRequest, _phase: RequestPhase) -> (id:
    Option<&str>)
    ensures
        named(id) == turn_session(*request),
{
    match request.session_control() {
        Some(control) => Some(control.session_id.as_str()),
        None => None,
    }
}

/// The session whose existing binding the request belongs to.
pub fn binding_session_id_for_phase(request: &PreprocessedRequest, phase: RequestPhase) -> (id:
    Option<&str>)
    ensures
        named(id) == binding_session(*request, phase),
{
    match request.session_control() {
        Some(control) => {
            if control.action.is_some() {
                Some(control.session_id.as_str())
            } else {
                sticky_session_id_for_phase(request, phase)
            }
        },
        None => None,
    }
}

} // verus!
