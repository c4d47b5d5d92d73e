//! The router's own state.

use vstd::prelude::*;

use crate::push_router::config::RebindConfig;
use crate::sticky::coordinator::StickySessionCoordinator;
use crate::sticky::state::{AffinityState, CoordinatorState, RouterState};

verus! {

/// What became of a shadow rebind, as it is counted.
#[derive(Clone, Copy, Debug, PartialEq, Eq, Structural)]
pub enum RebindTransition {
    /// A load imbalance led to a rebind.
    DecisionLoadImbalance,
    /// The cold worker confirmed the prefill, and the rebind was published.
    CommitPrefillCompleteAck,
    AbortAnnotatedError,
    AbortLlmError,
    AbortCancelled,
    AbortAckBeforeBootstrap,
    AbortCasConflict,
    AbortMissingAck,
    AbortContextStopped,
    AbortStreamDropped,
    AbortRouteError,
    AbortDispatchError,
    AbortTrackingError,
    AbortPrepareError,
}

/// What the router holds.
#[verifier::ext_equal]
pub struct PushState {
    pub sticky: CoordinatorState,
    /// The transitions that were recorded and not yet handed over.
    pub recorded: Seq<RebindTransition>,
}

impl PushState {
    pub open spec fn with_sticky(self, sticky: CoordinatorState) -> PushState {
        PushState { sticky, ..self }
    }

    pub open spec fn recording(self, transition: RebindTransition) -> PushState {
        PushState { recorded: self.recorded.push(transition), ..self }
    }
}

/// Routes requests to workers by their sessions and by load.
pub struct KvPushRouter {
    /// Sticky session routing, for requests that carry session control.
    pub sticky: StickySessionCoordinator,
    pub config: RebindConfig,
    /// What became of shadow rebinds, oldest first.
    pub transitions: Vec<RebindTransition>,
}

impl KvPushRouter {
    /// What the router holds.
    pub open spec fn state(&self) -> PushState {
        PushState { sticky: self.sticky.state(), recorded: self.transitions@ }
    }

    /// A router that has seen no session.
    pub fn new(config: RebindConfig) -> (router: KvPushRouter)
        ensures
            router.config == config,
            router.state() == (PushState {
                sticky: CoordinatorState {
                    router: RouterState::around(
                        AffinityState::empty(true),
                        router.state().sticky.router.epoch,
                    ),
                    turns: Map::empty(),
                },
                recorded: Seq::empty(),
            }),
    {
        KvPushRouter { sticky: StickySessionCoordinator::new(), config, transitions: Vec::new() }
    }

    /// Record what became of a shadow rebind.
    pub fn record_rebind_transition(&mut self, transition: RebindTransition)
        ensures
            final(self).state() == old(self).state().recording(transition),
            final(self).config == old(self).config,
    {
        self.transitions.push(transition);
    }

    /// Hand over the recorded transitions, oldest first.
    pub fn take_transitions(&mut self) -> (transitions: Vec<RebindTransition>)
        ensures
            transitions@ == old(self).state().recorded,
            final(self).state() == (PushState { recorded: Seq::empty(), ..old(self).state() }),
            final(self).config == old(self).config,
    {
        let mut transitions: Vec<RebindTransition> = Vec::new();
        std::mem::swap(&mut transitions, &mut self.transitions);
        transitions
    }
}

} // verus!
