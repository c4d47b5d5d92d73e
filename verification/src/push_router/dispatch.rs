//! Dispatching a request to its worker, and watching over the response.

use vstd::prelude::*;

use crate::protocols::{Annotated, PreprocessedRequest, RoutingHints};
use crate::push_router::gate::{RebindResponseGate, RebindStreamAction};
use crate::push_router::router::{KvPushRouter, PushState, RebindTransition};
use crate::push_router::selection::WorkerSelection;
use crate::sticky::coordinator::{
    SessionCloseAction, SessionRebindGuard, SessionRoutingResult, SessionRoutingRollback,
    SessionTurnGuard,
};
use crate::time::Instant;

verus! {

/// What is held for a session while its request is dispatched.
pub struct Dispatch {
    pub pending_rebind: Option<SessionRebindGuard>,
    pub session_turn: Option<SessionTurnGuard>,
    /// How to undo what routing the request did to its session.
    pub rollback: Option<SessionRoutingRollback>,
    /// The request goes to the selected worker and no other.
    pub exact: bool,
}

/// After the routing of a request was undone, as far as it did anything.
pub open spec fn routing_undone(
    state: PushState,
    rollback: Option<SessionRoutingRollback>,
) -> PushState {
    match rollback {
        Some(undo) => state.with_sticky(
            state.sticky.with_store(
                state.sticky.router.store.removed_if(undo.session(), undo.token()),
            ),
        ),
        None => state,
    }
}

/// The request is `before`, sent to this rank of its worker.
pub open spec fn sent_to_rank(
    before: PreprocessedRequest,
    after: PreprocessedRequest,
    dp_rank: u32,
) -> bool {
    &&& after == (PreprocessedRequest { routing: after.routing, ..before })
    &&& after.routing matches Some(hints)
    &&& hints.dp_rank == Some(dp_rank)
    &&& match before.routing {
        Some(given) => hints == (RoutingHints { dp_rank: Some(dp_rank), ..given }),
        None => {
            &&& hints.session_control is None
            &&& hints.prefill_worker_id is None
            &&& hints.prefill_dp_rank is None
            &&& hints.decode_worker_id is None
            &&& hints.backend_instance_id is None
            &&& hints.lora_name is None
        },
    }
}

/// Name the rank in the request that is sent to its worker.
pub fn pin_dp_rank(request: &mut PreprocessedRequest, dp_rank: u32)
    ensures
        sent_to_rank(*old(request), *final(request), dp_rank),
{
    let mut hints = match request.routing.take() {
        Some(hints) => hints,
        None => RoutingHints::default(),
    };
    hints.dp_rank = Some(dp_rank);
    request.routing = Some(hints);
}

impl Dispatch {
    /// A request without a turn and without a rebind. It may go to another
    /// worker if the selected one has just gone.
    pub fn plain() -> (dispatch: Dispatch)
        ensures
            dispatch == (Dispatch {
                pending_rebind: None,
                session_turn: None,
                rollback: None,
                exact: false,
            }),
    {
        Dispatch { pending_rebind: None, session_turn: None, rollback: None, exact: false }
    }

    /// A prefill, with what is held for its session. It goes to the selected
    /// worker and no other.
    pub fn prefill(
        pending_rebind: Option<SessionRebindGuard>,
        session_turn: Option<SessionTurnGuard>,
    ) -> (dispatch: Dispatch)
        ensures
            dispatch == (Dispatch {
                pending_rebind,
                session_turn,
                rollback: None,
                exact: true,
            }),
    {
        Dispatch { pending_rebind, session_turn, rollback: None, exact: true }
    }

    /// The lifecycle action of the request could not be applied.
    pub fn route_failed_at(self, router: &mut KvPushRouter, now: Instant)
        ensures
            final(router).state() == crate::push_router::prefill::turn_over(
                crate::push_router::prefill::gave_up(
                    old(router).state(),
                    self.pending_rebind,
                    RebindTransition::AbortRouteError,
                    now,
                ),
                self.session_turn,
            ),
            final(router).config == old(router).config,
    {
        router.abort_prefill_at(
            self.pending_rebind,
            self.session_turn,
            RebindTransition::AbortRouteError,
            now,
        );
    }

    /// The lifecycle action of the request could not be applied.
    pub fn route_failed(self, router: &mut KvPushRouter)
        ensures
            exists|now: Instant| #[trigger]
                old(router).sticky.shows(now) && now.in_range() && final(router).state() == crate::push_router::prefill::turn_over(
                    crate::push_router::prefill::gave_up(
                        old(router).state(),
                        self.pending_rebind,
                        RebindTransition::AbortRouteError,
                        now,
                    ),
                    self.session_turn,
                ),
            final(router).config == old(router).config,
    {
        let now = router.sticky.now();
        self.route_failed_at(router, now);
    }

    /// The lifecycle action of the request was applied: the request is ready to
    /// be sent to its rank. Returns the session to be closed when it is done.
    pub fn routed(
        &mut self,
        request: &mut PreprocessedRequest,
        selection: &WorkerSelection,
        outcome: SessionRoutingResult,
    ) -> (deferred_close: Option<SessionCloseAction>)
        ensures
            deferred_close == outcome.deferred_close,
            *final(self) == (Dispatch { rollback: outcome.rollback, ..*old(self) }),
            sent_to_rank(*old(request), *final(request), selection.dp_rank),
    {
        self.rollback = outcome.rollback;
        pin_dp_rank(request, selection.dp_rank);
        outcome.deferred_close
    }

    /// The request did not reach its worker: the routing is undone and a pending
    /// rebind is given up. Returns the session that has to be closed because the
    /// routing opened it.
    pub fn dispatch_failed_at(self, router: &mut KvPushRouter, now: Instant) -> (close: Option<
        SessionCloseAction,
    >)
        ensures
            crate::sticky::coordinator::closes(close) == match self.rollback {
                Some(undo) => undo.closes(),
                None => None,
            },
            final(router).state() == crate::push_router::prefill::turn_over(
                crate::push_router::prefill::gave_up(
                    routing_undone(old(router).state(), self.rollback),
                    self.pending_rebind,
                    RebindTransition::AbortDispatchError,
                    now,
                ),
                self.session_turn,
            ),
            final(router).config == old(router).config,
    {
        let close = match self.rollback {
            Some(undo) => router.sticky.rollback_routed(undo),
            None => None,
        };
        router.abort_prefill_at(
            self.pending_rebind,
            self.session_turn,
            RebindTransition::AbortDispatchError,
            now,
        );
        close
    }

    /// The request did not reach its worker.
    pub fn dispatch_failed(self, router: &mut KvPushRouter) -> (close: Option<SessionCloseAction>)
        ensures
            crate::sticky::coordinator::closes(close) == match self.rollback {
                Some(undo) => undo.closes(),
                None => None,
            },
            exists|now: Instant| #[trigger]
                old(router).sticky.shows(now) && now.in_range() && final(router).state() == crate::push_router::prefill::turn_over(
                    crate::push_router::prefill::gave_up(
                        routing_undone(old(router).state(), self.rollback),
                        self.pending_rebind,
                        RebindTransition::AbortDispatchError,
                        now,
                    ),
                    self.session_turn,
                ),
            final(router).config == old(router).config,
    {
        let now = router.sticky.now();
        self.dispatch_failed_at(router, now)
    }

    /// The request reached its worker: what the routing did stands, and the
    /// response decides on a pending rebind.
    pub fn dispatched(self) -> (response: ResponseWatch)
        ensures
            response.session_turn == self.session_turn,
            !response.gate.state().saw_bootstrap_data,
            response.gate.state().pending == match self.pending_rebind {
                Some(guard) => Some((guard.session(), guard.token())),
                None => None,
            },
    {
        ResponseWatch {
            gate: RebindResponseGate::new(self.pending_rebind),
            session_turn: self.session_turn,
        }
    }
}

/// What to do with a frame of the response.
#[derive(Clone, Debug)]
pub enum StreamStep {
    /// Hand this frame to the client.
    Yield(Annotated),
    /// Hand nothing to the client.
    Skip,
    /// Hand this frame to the client, and take no more of the response.
    Last(Annotated),
}

/// `step` is the frame handled as the action has it.
pub open spec fn carries_out(step: StreamStep, item: Annotated, action: RebindStreamAction) -> bool {
    match action {
        RebindStreamAction::Forward => step == StreamStep::Yield(item),
        RebindStreamAction::RolledBack(_) => step == StreamStep::Yield(item),
        RebindStreamAction::SuppressControlFrame => step is Skip,
        RebindStreamAction::Committed => step is Skip,
        RebindStreamAction::ReplaceWithError(message) => {
            &&& step matches StreamStep::Last(frame)
            &&& frame.data is None
            &&& frame.is_error
            &&& frame.error == Some(message)
        },
    }
}

/// Watches over the response to a request that was dispatched.
pub struct ResponseWatch {
    pub gate: RebindResponseGate,
    pub session_turn: Option<SessionTurnGuard>,
}

impl ResponseWatch {
    /// A frame of the response has come.
    pub fn on_item_at(&mut self, router: &mut KvPushRouter, item: Annotated, now: Instant) -> (step:
        StreamStep)
        requires
            now.in_range(),
            old(self).gate.countable(old(router).state()),
        ensures
            exists|action: RebindStreamAction| #[trigger]
                old(self).gate.state().answers(
                    old(router).state(),
                    item,
                    crate::push_router::gate::confirms(item),
                    now,
                    action,
                ) && carries_out(step, item, action),
            final(self).gate.state() == old(self).gate.state().after(
                item,
                crate::push_router::gate::confirms(item),
            ),
            final(self).session_turn == old(self).session_turn,
            final(router).state() == old(self).gate.state().routes_on(
                old(router).state(),
                item,
                crate::push_router::gate::confirms(item),
                now,
            ),
            final(router).config == old(router).config,
    {
        let action = self.gate.observe_at(router, &item, now);
        match action {
            RebindStreamAction::Forward => StreamStep::Yield(item),
            RebindStreamAction::RolledBack(_) => StreamStep::Yield(item),
            RebindStreamAction::SuppressControlFrame => StreamStep::Skip,
            RebindStreamAction::Committed => StreamStep::Skip,
            RebindStreamAction::ReplaceWithError(message) => StreamStep::Last(
                Annotated::from_error(message),
            ),
        }
    }

    /// A frame of the response has come.
    pub fn on_item(&mut self, router: &mut KvPushRouter, item: Annotated) -> (step: StreamStep)
        requires
            old(self).gate.countable(old(router).state()),
        ensures
            exists|now: Instant, action: RebindStreamAction|
                #![trigger old(self).gate.state().answers(
                    old(router).state(),
                    item,
                    crate::push_router::gate::confirms(item),
                    now,
                    action,
                )]
                old(router).sticky.shows(now) && now.in_range() && old(self).gate.state().answers(
                    old(router).state(),
                    item,
                    crate::push_router::gate::confirms(item),
                    now,
                    action,
                ) && carries_out(step, item, action) && final(router).state() == old(
                    self,
                ).gate.state().routes_on(
                    old(router).state(),
                    item,
                    crate::push_router::gate::confirms(item),
                    now,
                ),
            final(self).gate.state() == old(self).gate.state().after(
                item,
                crate::push_router::gate::confirms(item),
            ),
            final(self).session_turn == old(self).session_turn,
            final(router).config == old(router).config,
    {
        let now = router.sticky.now();
        self.on_item_at(router, item, now)
    }

    /// The request was stopped: no more of the response is taken. Returns
    /// whether a rebind was pending.
    pub fn on_stopped_at(&mut self, router: &mut KvPushRouter, now: Instant) -> (cancelled: bool)
        ensures
            cancelled == (old(self).gate.state().pending is Some),
            final(self).gate.state() == old(self).gate.state().settled(),
            final(self).session_turn == old(self).session_turn,
            final(router).state() == old(self).gate.state().given_up(
                old(router).state(),
                RebindTransition::AbortContextStopped,
                now,
            ),
            final(router).config == old(router).config,
    {
        self.gate.cancel_at(router, now)
    }

    /// The request was stopped.
    pub fn on_stopped(&mut self, router: &mut KvPushRouter) -> (cancelled: bool)
        ensures
            cancelled == (old(self).gate.state().pending is Some),
            final(self).gate.state() == old(self).gate.state().settled(),
            final(self).session_turn == old(self).session_turn,
            exists|now: Instant| #[trigger]
                old(router).sticky.shows(now) && now.in_range() && final(router).state() == old(self).gate.state().given_up(
                    old(router).state(),
                    RebindTransition::AbortContextStopped,
                    now,
                ),
            final(router).config == old(router).config,
    {
        let now = router.sticky.now();
        self.on_stopped_at(router, now)
    }

    /// No more of the response is taken, because it ended or for the reasons
    /// above. A rebind that is still pending fails closed, with one more frame
    /// for the client. The turn is given back.
    pub fn finish_at(self, router: &mut KvPushRouter, now: Instant) -> (last: Option<Annotated>)
        ensures
            match last {
                Some(frame) => {
                    &&& self.gate.state().pending is Some
                    &&& frame.data is None
                    &&& frame.is_error
                    &&& frame.error matches Some(message)
                    &&& message@ == crate::push_router::gate::missing_ack_message(
                        self.gate.state().saw_bootstrap_data,
                    )
                },
                None => self.gate.state().pending is None,
            },
            final(router).state() == crate::push_router::prefill::turn_over(
                self.gate.state().given_up(
                    old(router).state(),
                    RebindTransition::AbortMissingAck,
                    now,
                ),
                self.session_turn,
            ),
            final(router).config == old(router).config,
    {
        let mut gate = self.gate;
        let last = match gate.finish_at(router, now) {
            Some(message) => Some(Annotated::from_error(message)),
            None => None,
        };
        router.release_turn(self.session_turn);
        last
    }

    /// No more of the response is taken.
    pub fn finish(self, router: &mut KvPushRouter) -> (last: Option<Annotated>)
        ensures
            match last {
                Some(frame) => {
                    &&& self.gate.state().pending is Some
                    &&& frame.data is None
                    &&& frame.is_error
                    &&& frame.error matches Some(message)
                    &&& message@ == crate::push_router::gate::missing_ack_message(
                        self.gate.state().saw_bootstrap_data,
                    )
                },
                None => self.gate.state().pending is None,
            },
            exists|now: Instant| #[trigger]
                old(router).sticky.shows(now) && now.in_range() && final(router).state() == crate::push_router::prefill::turn_over(
                    self.gate.state().given_up(
                        old(router).state(),
                        RebindTransition::AbortMissingAck,
                        now,
                    ),
                    self.session_turn,
                ),
            final(router).config == old(router).config,
    {
        let now = router.sticky.now();
        self.finish_at(router, now)
    }

    /// The client has gone, and the response with it. A pending rebind is given
    /// up, and the turn is given back.
    pub fn drop_at(self, router: &mut KvPushRouter, now: Instant)
        ensures
            final(router).state() == crate::push_router::prefill::turn_over(
                self.gate.state().given_up(
                    old(router).state(),
                    RebindTransition::AbortStreamDropped,
                    now,
                ),
                self.session_turn,
            ),
            final(router).config == old(router).config,
    {
        let mut gate = self.gate;
        gate.abandon_at(router, now);
        router.release_turn(self.session_turn);
    }

    /// The client has gone, and the response with it.
    pub fn dropped(self, router: &mut KvPushRouter)
        ensures
            exists|now: Instant| #[trigger]
                old(router).sticky.shows(now) && now.in_range() && final(router).state() == crate::push_router::prefill::turn_over(
                    self.gate.state().given_up(
                        old(router).state(),
                        RebindTransition::AbortStreamDropped,
                        now,
                    ),
                    self.session_turn,
                ),
            final(router).config == old(router).config,
    {
        let now = router.sticky.now();
        self.drop_at(router, now);
    }
}

} // verus!
