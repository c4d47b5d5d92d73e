//! Settling a shadow rebind by the frames of the cold worker's response.

use vstd::prelude::*;

use vstd::string::StringExecFns;

use crate::json::json_flag;
use crate::protocols::{Annotated, FinishReason, LLMEngineOutput};
use crate::push_router::router::{KvPushRouter, PushState, RebindTransition};
use crate::sticky::coordinator::SessionRebindGuard;
use crate::sticky::router::AffinityRebindToken;
use crate::time::Instant;

verus! {

/// The member of `extra_args` by which the cold prefill worker confirms that it
/// is done. The initial chunk with disaggregated parameters only confirms
/// bootstrap-room registration and is deliberately no confirmation.
pub const PREFILL_COMPLETE_MARKER_KEY: &'static str = "dynamo_prefill_complete";

/// The output confirms that the cold prefill is complete.
pub open spec fn completes_prefill(output: LLMEngineOutput) -> bool {
    output.extra_args is Some && crate::json::has_true_member(
        output.extra_args->0,
        PREFILL_COMPLETE_MARKER_KEY@,
    )
}

/// The frame carries output that confirms that the cold prefill is complete.
pub open spec fn confirms(item: Annotated) -> bool {
    item.data is Some && completes_prefill(item.data->0)
}

/// Whether the output confirms that the cold prefill is complete.
pub fn is_prefill_complete_marker(output: &LLMEngineOutput) -> (complete: bool)
    ensures
        complete == completes_prefill(*output),
{
    match &output.extra_args {
        Some(extra_args) => json_flag(extra_args, PREFILL_COMPLETE_MARKER_KEY),
        None => false,
    }
}

/// What is to be done with a frame.
#[derive(Clone, Debug, PartialEq, Eq)]
pub enum RebindStreamAction {
    /// Hand the frame on.
    Forward,
    /// Hold the frame back: it is meant for the router alone.
    SuppressControlFrame,
    /// Hold the frame back: it published the rebind.
    Committed,
    /// Hand the frame on. It ended the rebind, for the reason given.
    RolledBack(&'static str),
    /// Put an error frame with this message in place of the frame, and end the
    /// stream. The rebind has ended.
    ReplaceWithError(String),
}

/// What a frame means for a rebind.
pub enum FrameMeaning {
    /// Nothing.
    Plain,
    /// It is meant for the router alone.
    Control,
    /// The bootstrap data has come.
    Bootstrap,
    /// The rebind has failed.
    Failure(RebindTransition),
    /// The rebind may be published.
    Completion,
}

/// What a response gate holds.
pub struct GateState {
    /// The session of the pending rebind, and its transition.
    pub pending: Option<(Seq<char>, AffinityRebindToken)>,
    pub saw_bootstrap_data: bool,
}

impl GateState {
    /// What a frame means. `complete` says whether the output in it confirms
    /// that the prefill is complete.
    ///
    /// A failure is one whatever else the frame says. Without data a frame
    /// proves nothing. The confirmation counts only after bootstrap data.
    pub open spec fn meaning(self, item: Annotated, complete: bool) -> FrameMeaning {
        if self.pending is None {
            if complete && item.data is Some && item.event is None && item.error is None {
                FrameMeaning::Control
            } else {
                FrameMeaning::Plain
            }
        } else if item.spec_fails() {
            FrameMeaning::Failure(RebindTransition::AbortAnnotatedError)
        } else if item.data is None {
            FrameMeaning::Plain
        } else if item.data->0.finish_reason is Some && item.data->0.finish_reason->0 is Error {
            FrameMeaning::Failure(RebindTransition::AbortLlmError)
        } else if item.data->0.finish_reason is Some && item.data->0.finish_reason->0 is Cancelled {
            FrameMeaning::Failure(RebindTransition::AbortCancelled)
        } else if complete {
            if self.saw_bootstrap_data {
                FrameMeaning::Completion
            } else {
                FrameMeaning::Failure(RebindTransition::AbortAckBeforeBootstrap)
            }
        } else if item.data->0.disaggregated_params is Some {
            FrameMeaning::Bootstrap
        } else {
            FrameMeaning::Plain
        }
    }

    /// After a frame. A rebind that has ended is no longer pending.
    pub open spec fn after(self, item: Annotated, complete: bool) -> GateState {
        match self.meaning(item, complete) {
            FrameMeaning::Failure(_) => self.settled(),
            FrameMeaning::Completion => self.settled(),
            FrameMeaning::Bootstrap => GateState { saw_bootstrap_data: true, ..self },
            _ => self,
        }
    }

    /// After a row of frames, each with whether it confirms the prefill.
    pub open spec fn after_all(self, frames: Seq<(Annotated, bool)>) -> GateState
        decreases frames.len(),
    {
        if frames.len() == 0 {
            self
        } else {
            let (item, complete) = frames.last();
            self.after_all(frames.drop_last()).after(item, complete)
        }
    }

    /// What the frame at `i` of a row means when it comes.
    pub open spec fn meaning_at(self, frames: Seq<(Annotated, bool)>, i: int) -> FrameMeaning {
        let (item, complete) = frames[i];
        self.after_all(frames.take(i)).meaning(item, complete)
    }

    pub open spec fn settled(self) -> GateState {
        GateState { pending: None, ..self }
    }

    /// The pending rebind can be published.
    pub open spec fn current(self, router: PushState, now: Instant) -> bool {
        router.sticky.router.store.can_commit((self.pending->0).0, (self.pending->0).1, now)
    }

    /// The router after the pending rebind was given up, with the reason
    /// recorded. Without a pending rebind nothing happens.
    pub open spec fn given_up(
        self,
        router: PushState,
        reason: RebindTransition,
        now: Instant,
    ) -> PushState {
        match self.pending {
            Some((session, token)) => router.with_sticky(
                router.sticky.abandoned(session, token, now),
            ).recording(reason),
            None => router,
        }
    }

    /// The router after a frame.
    pub open spec fn routes_on(
        self,
        router: PushState,
        item: Annotated,
        complete: bool,
        now: Instant,
    ) -> PushState {
        match self.meaning(item, complete) {
            FrameMeaning::Failure(reason) => self.given_up(router, reason, now),
            FrameMeaning::Completion => if self.current(router, now) {
                router.with_sticky(
                    router.sticky.settled((self.pending->0).0, (self.pending->0).1, now),
                ).recording(RebindTransition::CommitPrefillCompleteAck)
            } else {
                self.given_up(router, RebindTransition::AbortCasConflict, now)
            },
            _ => router,
        }
    }

    /// `action` is what is to be done with a frame.
    pub open spec fn answers(
        self,
        router: PushState,
        item: Annotated,
        complete: bool,
        now: Instant,
        action: RebindStreamAction,
    ) -> bool {
        match self.meaning(item, complete) {
            FrameMeaning::Plain => action is Forward,
            FrameMeaning::Bootstrap => action is Forward,
            FrameMeaning::Control => action is SuppressControlFrame,
            FrameMeaning::Failure(RebindTransition::AbortAnnotatedError) => {
                &&& action matches RebindStreamAction::RolledBack(reason)
                &&& reason@ == "annotated_error"@
            },
            FrameMeaning::Failure(reason) => {
                &&& action matches RebindStreamAction::ReplaceWithError(message)
                &&& message@ == failure_message(reason, item)
            },
            FrameMeaning::Completion => if self.current(router, now) {
                action is Committed
            } else {
                &&& action matches RebindStreamAction::ReplaceWithError(message)
                &&& message@ == failure_message(RebindTransition::AbortCasConflict, item)
            },
        }
    }
}

/// What the client is told of a failed rebind.
pub open spec fn failure_message(reason: RebindTransition, item: Annotated) -> Seq<char> {
    match reason {
        RebindTransition::AbortLlmError => "cold prefill failed before completion ACK: "@
            + item.data->0.finish_reason->0->Error_0@,
        RebindTransition::AbortCancelled => "cold prefill was cancelled before completion ACK"@,
        RebindTransition::AbortAckBeforeBootstrap =>
            "cold prefill completion ACK arrived before bootstrap data"@,
        _ =>
            "session affinity changed before cold prefill completion; refusing to overwrite concurrent affinity"@,
    }
}

/// What the client is told when the stream ends without a confirmation.
pub open spec fn missing_ack_message(saw_bootstrap_data: bool) -> Seq<char> {
    if saw_bootstrap_data {
        "cold prefill stream ended without a completion ACK"@
    } else {
        "cold prefill stream ended before bootstrap data or completion ACK"@
    }
}

/// Holds a shadow affinity until the cold prefill worker explicitly confirms
/// that migration or its full-prefill fallback has completed.
pub struct RebindResponseGate {
    pending: Option<SessionRebindGuard>,
    saw_bootstrap_data: bool,
}

impl RebindResponseGate {
    /// What a response gate holds.
    pub closed spec fn state(&self) -> GateState {
        GateState {
            pending: match self.pending {
                Some(guard) => Some((guard.session(), guard.token())),
                None => None,
            },
            saw_bootstrap_data: self.saw_bootstrap_data,
        }
    }

    /// The rebind count of the session leaves room for one more, as far as a
    /// rebind is pending that can still be published.
    pub open spec fn countable(&self, router: PushState) -> bool {
        match self.state().pending {
            Some((session, token)) => router.sticky.router.store.can_roll_back(session, token)
                ==> router.sticky.router.rebinds(session) < u32::MAX,
            None => true,
        }
    }

    /// Whether the rebind count of the pending session leaves room for one more.
    pub fn is_countable(&self, router: &KvPushRouter) -> (room: bool)
        ensures
            room == match self.state().pending {
                Some((session, _)) => router.state().sticky.router.rebinds(session) < u32::MAX,
                None => true,
            },
            room ==> self.countable(router.state()),
    {
        match &self.pending {
            Some(guard) => guard.is_countable(&router.sticky),
            None => true,
        }
    }

    /// A gate before the first frame.
    pub fn new(pending: Option<SessionRebindGuard>) -> (gate: RebindResponseGate)
        ensures
            !gate.state().saw_bootstrap_data,
            match pending {
                Some(guard) => gate.state().pending == Some((guard.session(), guard.token())),
                None => gate.state().pending is None,
            },
    {
        RebindResponseGate { pending, saw_bootstrap_data: false }
    }

    /// Give up the pending rebind and record the reason. Returns whether there
    /// was one.
    fn give_up(&mut self, router: &mut KvPushRouter, reason: RebindTransition, now: Instant) -> (pending:
        bool)
        ensures
            pending == (old(self).state().pending is Some),
            final(self).state() == old(self).state().settled(),
            final(router).state() == old(self).state().given_up(old(router).state(), reason, now),
            final(router).config == old(router).config,
    {
        match self.pending.take() {
            Some(guard) => {
                guard.abandon_at(&mut router.sticky, now);
                router.record_rebind_transition(reason);
                true
            },
            None => false,
        }
    }

    /// Take in a frame. `complete` says whether the output in it confirms that
    /// the prefill is complete.
    pub fn observe_frame_at(
        &mut self,
        router: &mut KvPushRouter,
        item: &Annotated,
        complete: bool,
        now: Instant,
    ) -> (action: RebindStreamAction)
        requires
            now.in_range(),
            old(self).countable(old(router).state()),
        ensures
            old(self).state().answers(old(router).state(), *item, complete, now, action),
            final(self).state() == old(self).state().after(*item, complete),
            final(router).state() == old(self).state().routes_on(
                old(router).state(),
                *item,
                complete,
                now,
            ),
            final(router).config == old(router).config,
    {
        if self.pending.is_none() {
            return if complete && item.data.is_some() && item.event.is_none()
                && item.error.is_none() {
                RebindStreamAction::SuppressControlFrame
            } else {
                RebindStreamAction::Forward
            };
        }
        if item.is_error || item.error.is_some() {
            self.give_up(router, RebindTransition::AbortAnnotatedError, now);
            return RebindStreamAction::RolledBack("annotated_error");
        }
        let output = match &item.data {
            Some(output) => output,
            None => {
                return RebindStreamAction::Forward;
            },
        };
        match &output.finish_reason {
            Some(FinishReason::Error(cause)) => {
                self.give_up(router, RebindTransition::AbortLlmError, now);
                let mut message = "cold prefill failed before completion ACK: ".to_owned();
                message.append(cause.as_str());
                return RebindStreamAction::ReplaceWithError(message);
            },
            Some(FinishReason::Cancelled) => {
                self.give_up(router, RebindTransition::AbortCancelled, now);
                return RebindStreamAction::ReplaceWithError(
                    "cold prefill was cancelled before completion ACK".to_owned(),
                );
            },
            _ => {},
        }
        if complete {
            if !self.saw_bootstrap_data {
                self.give_up(router, RebindTransition::AbortAckBeforeBootstrap, now);
                return RebindStreamAction::ReplaceWithError(
                    "cold prefill completion ACK arrived before bootstrap data".to_owned(),
                );
            }
            let committed = match self.pending.take() {
                Some(guard) => guard.commit_at(&mut router.sticky, now),
                None => false,
            };
            return if committed {
                router.record_rebind_transition(RebindTransition::CommitPrefillCompleteAck);
                RebindStreamAction::Committed
            } else {
                router.record_rebind_transition(RebindTransition::AbortCasConflict);
                RebindStreamAction::ReplaceWithError(
                    "session affinity changed before cold prefill completion; refusing to overwrite concurrent affinity".to_owned(),
                )
            };
        }
        if output.disaggregated_params.is_some() {
            self.saw_bootstrap_data = true;
        }
        RebindStreamAction::Forward
    }

    /// Take in a frame.
    pub fn observe_at(&mut self, router: &mut KvPushRouter, item: &Annotated, now: Instant) -> (action:
        RebindStreamAction)
        requires
            now.in_range(),
            old(self).countable(old(router).state()),
        ensures
            old(self).state().answers(old(router).state(), *item, confirms(*item), now, action),
            final(self).state() == old(self).state().after(*item, confirms(*item)),
            final(router).state() == old(self).state().routes_on(
                old(router).state(),
                *item,
                confirms(*item),
                now,
            ),
            final(router).config == old(router).config,
    {
        let complete = match &item.data {
            Some(output) => is_prefill_complete_marker(output),
            None => false,
        };
        self.observe_frame_at(router, item, complete, now)
    }

    /// Take in a frame.
    pub fn observe(&mut self, router: &mut KvPushRouter, item: &Annotated) -> (action:
        RebindStreamAction)
        requires
            old(self).countable(old(router).state()),
        ensures
            exists|now: Instant| #[trigger]
                old(router).sticky.shows(now) && now.in_range() && old(self).state().answers(
                    old(router).state(),
                    *item,
                    confirms(*item),
                    now,
                    action,
                ) && final(router).state() == old(self).state().routes_on(
                    old(router).state(),
                    *item,
                    confirms(*item),
                    now,
                ),
            final(self).state() == old(self).state().after(*item, confirms(*item)),
            final(router).config == old(router).config,
    {
        let now = router.sticky.now();
        self.observe_at(router, item, now)
    }

    /// The stream has ended. A rebind that is still pending is given up, and
    /// the client is to be told.
    pub fn finish_at(&mut self, router: &mut KvPushRouter, now: Instant) -> (message: Option<
        String,
    >)
        ensures
            match message {
                Some(text) => old(self).state().pending is Some && text@ == missing_ack_message(
                    old(self).state().saw_bootstrap_data,
                ),
                None => old(self).state().pending is None,
            },
            final(self).state() == old(self).state().settled(),
            final(router).state() == old(self).state().given_up(
                old(router).state(),
                RebindTransition::AbortMissingAck,
                now,
            ),
            final(router).config == old(router).config,
    {
        if !self.give_up(router, RebindTransition::AbortMissingAck, now) {
            return None;
        }
        Some(
            if self.saw_bootstrap_data {
                "cold prefill stream ended without a completion ACK".to_owned()
            } else {
                "cold prefill stream ended before bootstrap data or completion ACK".to_owned()
            },
        )
    }

    /// The stream has ended.
    pub fn finish(&mut self, router: &mut KvPushRouter) -> (message: Option<String>)
        ensures
            match message {
                Some(text) => old(self).state().pending is Some && text@ == missing_ack_message(
                    old(self).state().saw_bootstrap_data,
                ),
                None => old(self).state().pending is None,
            },
            final(self).state() == old(self).state().settled(),
            exists|now: Instant| #[trigger]
                old(router).sticky.shows(now) && now.in_range() && final(router).state() == old(self).state().given_up(
                    old(router).state(),
                    RebindTransition::AbortMissingAck,
                    now,
                ),
            final(router).config == old(router).config,
    {
        let now = router.sticky.now();
        self.finish_at(router, now)
    }

    /// The request was stopped: a pending rebind is given up. Returns whether
    /// there was one.
    pub fn cancel_at(&mut self, router: &mut KvPushRouter, now: Instant) -> (cancelled: bool)
        ensures
            cancelled == (old(self).state().pending is Some),
            final(self).state() == old(self).state().settled(),
            final(router).state() == old(self).state().given_up(
                old(router).state(),
                RebindTransition::AbortContextStopped,
                now,
            ),
            final(router).config == old(router).config,
    {
        self.give_up(router, RebindTransition::AbortContextStopped, now)
    }

    /// The request was stopped.
    pub fn cancel(&mut self, router: &mut KvPushRouter) -> (cancelled: bool)
        ensures
            cancelled == (old(self).state().pending is Some),
            final(self).state() == old(self).state().settled(),
            exists|now: Instant| #[trigger]
                old(router).sticky.shows(now) && now.in_range() && final(router).state() == old(self).state().given_up(
                    old(router).state(),
                    RebindTransition::AbortContextStopped,
                    now,
                ),
            final(router).config == old(router).config,
    {
        let now = router.sticky.now();
        self.cancel_at(router, now)
    }

    /// The stream was dropped: a pending rebind is given up.
    pub fn abandon_at(&mut self, router: &mut KvPushRouter, now: Instant)
        ensures
            final(self).state() == old(self).state().settled(),
            final(router).state() == old(self).state().given_up(
                old(router).state(),
                RebindTransition::AbortStreamDropped,
                now,
            ),
            final(router).config == old(router).config,
    {
        self.give_up(router, RebindTransition::AbortStreamDropped, now);
    }

    /// The stream was dropped.
    pub fn abandon(&mut self, router: &mut KvPushRouter)
        ensures
            final(self).state() == old(self).state().settled(),
            exists|now: Instant| #[trigger]
                old(router).sticky.shows(now) && now.in_range() && final(router).state() == old(self).state().given_up(
                    old(router).state(),
                    RebindTransition::AbortStreamDropped,
                    now,
                ),
            final(router).config == old(router).config,
    {
        let now = router.sticky.now();
        self.abandon_at(router, now);
    }
}

} // verus!
