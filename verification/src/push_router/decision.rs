//! Whether a session leaves its hot rank for a colder one.

use vstd::prelude::*;

use std::collections::HashMap;

use vstd::hash_map::StringHashMap;

use crate::json::json_is_true;
use crate::protocols::{PreprocessedRequest, RequestPhase, SessionAction, WorkerWithDpRank};
use crate::push_router::config::{RebindConfig, REBIND_COOLDOWN_SECS};
use crate::push_router::router::KvPushRouter;
use crate::sticky::coordinator::sticky_session_id_for_phase;
use crate::sticky::router::{AffinityBindingToken, AffinityKind};
use crate::sticky::state::CoordinatorState;
use crate::time::{Duration, Instant};

verus! {

/// The runtime-data capability that both sides of a rebind must advertise. The
/// cold worker must confirm the prefill, and the published disaggregated
/// endpoint guarantees that prefill takes its bootstrap path.
pub const SESSION_REBIND_CAPABILITY_KEY: &'static str = "kv_session_rebind_v1";

/// Where a worker's disaggregated prefill bootstraps.
#[derive(Clone, Debug)]
pub struct DisaggregatedEndpoint {
    pub bootstrap_host: Option<String>,
    pub bootstrap_port: Option<u16>,
}

/// What a worker published about itself.
pub struct WorkerRuntimeConfig {
    pub runtime_data: StringHashMap<serde_json::Value>,
    pub disaggregated_endpoint: Option<DisaggregatedEndpoint>,
}

impl WorkerRuntimeConfig {
    /// The runtime data, by key.
    pub open spec fn data(&self) -> Map<Seq<char>, serde_json::Value> {
        self.runtime_data@
    }

    /// A worker without runtime data.
    pub fn new(disaggregated_endpoint: Option<DisaggregatedEndpoint>) -> (config:
        WorkerRuntimeConfig)
        ensures
            config.data() == Map::<Seq<char>, serde_json::Value>::empty(),
            config.disaggregated_endpoint == disaggregated_endpoint,
    {
        WorkerRuntimeConfig { runtime_data: StringHashMap::new(), disaggregated_endpoint }
    }

    /// Set one item of the runtime data.
    pub fn set_runtime_data(&mut self, key: String, value: serde_json::Value)
        ensures
            final(self).data() == old(self).data().insert(key@, value),
            final(self).disaggregated_endpoint == old(self).disaggregated_endpoint,
    {
        self.runtime_data.insert(key, value);
    }

    /// The worker advertises that it confirms prefills, and it publishes where
    /// they bootstrap.
    pub open spec fn supports_rebind(&self) -> bool {
        &&& self.data().contains_key(SESSION_REBIND_CAPABILITY_KEY@)
        &&& crate::json::is_true(self.data()[SESSION_REBIND_CAPABILITY_KEY@])
        &&& self.has_bootstrap_endpoint()
    }

    pub open spec fn has_bootstrap_endpoint(&self) -> bool {
        &&& self.disaggregated_endpoint is Some
        &&& self.disaggregated_endpoint->0.bootstrap_host is Some
        &&& self.disaggregated_endpoint->0.bootstrap_port is Some
    }

    /// Whether the worker advertises that it confirms prefills.
    fn advertises_ack(&self) -> (advertised: bool)
        ensures
            advertised == (self.data().contains_key(SESSION_REBIND_CAPABILITY_KEY@)
                && crate::json::is_true(self.data()[SESSION_REBIND_CAPABILITY_KEY@])),
    {
        match self.runtime_data.get(SESSION_REBIND_CAPABILITY_KEY) {
            Some(value) => json_is_true(value),
            None => false,
        }
    }

    /// Whether a worker that advertises this takes part in rebinds.
    pub fn accepts_rebind(&self, advertises_ack: bool) -> (supported: bool)
        ensures
            supported == (advertises_ack && self.has_bootstrap_endpoint()),
    {
        let has_bootstrap_endpoint = match &self.disaggregated_endpoint {
            Some(endpoint) => endpoint.bootstrap_host.is_some()
                && endpoint.bootstrap_port.is_some(),
            None => false,
        };
        advertises_ack && has_bootstrap_endpoint
    }
}

/// The worker is known and takes part in rebinds.
pub open spec fn supports_session_rebind(
    configs: Map<u64, WorkerRuntimeConfig>,
    worker_id: u64,
) -> bool {
    configs.contains_key(worker_id) && configs[worker_id].supports_rebind()
}

/// Whether the worker is known and takes part in rebinds.
pub fn worker_supports_session_rebind(
    configs: &HashMap<u64, WorkerRuntimeConfig>,
    worker_id: u64,
) -> (supported: bool)
    ensures
        supported == supports_session_rebind(configs@, worker_id),
{
    broadcast use vstd::std_specs::hash::group_hash_axioms;

    match configs.get(&worker_id) {
        Some(config) => config.accepts_rebind(config.advertises_ack()),
        None => false,
    }
}

/// The prefill load of one rank if it got the request.
#[derive(Clone, Copy, Debug, PartialEq, Eq, Structural)]
pub struct PotentialLoad {
    pub worker_id: u64,
    pub dp_rank: u32,
    /// Tokens to prefill, those of the request included.
    pub potential_prefill_tokens: usize,
    /// The request's share of these tokens: what the rank has not cached.
    pub request_prefill_delta: usize,
    /// The request may be routed to this rank.
    pub eligible: bool,
}

impl PotentialLoad {
    pub open spec fn spec_rank(self) -> WorkerWithDpRank {
        WorkerWithDpRank { worker_id: self.worker_id, dp_rank: self.dp_rank }
    }

    /// The scheduled backlog without the request.
    ///
    /// The potential with the cache discount would make a cache-rich hot rank
    /// look cheapest for its own sessions, so that the rebind would fire on
    /// young sessions with nothing to migrate and never on mature ones.
    pub open spec fn spec_backlog(self) -> nat {
        if self.potential_prefill_tokens >= self.request_prefill_delta {
            (self.potential_prefill_tokens - self.request_prefill_delta) as nat
        } else {
            0
        }
    }

    pub fn rank(&self) -> (rank: WorkerWithDpRank)
        ensures
            rank == self.spec_rank(),
    {
        WorkerWithDpRank::new(self.worker_id, self.dp_rank)
    }

    /// The scheduled backlog without the request.
    pub fn backlog(&self) -> (tokens: usize)
        ensures
            tokens == self.spec_backlog(),
    {
        self.potential_prefill_tokens.saturating_sub(self.request_prefill_delta)
    }

    /// The session of `expected` could move to this rank: another one than it
    /// is on, on the same worker if the engine holds the session.
    pub open spec fn spec_candidate(self, expected: AffinityBindingToken) -> bool {
        let hot = expected.binding.worker;
        &&& self.eligible
        &&& self.spec_rank() != hot
        &&& expected.binding.kind == AffinityKind::EngineBacked ==> self.worker_id == hot.worker_id
    }

    /// Whether the session of `expected` could move to this rank.
    pub fn candidate(&self, expected: AffinityBindingToken) -> (fits: bool)
        ensures
            fits == self.spec_candidate(expected),
    {
        let hot = expected.binding.worker;
        !(self.worker_id == hot.worker_id && self.dp_rank == hot.dp_rank) && (expected.binding.kind
            != AffinityKind::EngineBacked || self.worker_id == hot.worker_id) && self.eligible
    }
}

/// The load at `i` is the first one of the rank `hot`.
pub open spec fn is_hot(loads: Seq<PotentialLoad>, hot: WorkerWithDpRank, i: int) -> bool {
    &&& 0 <= i < loads.len()
    &&& loads[i].spec_rank() == hot
    &&& forall|j: int| 0 <= j < i ==> (#[trigger] loads[j]).spec_rank() != hot
}

/// The load at `i` is the first one with the smallest backlog among the ranks
/// that the session could move to.
pub open spec fn is_coldest(
    loads: Seq<PotentialLoad>,
    expected: AffinityBindingToken,
    i: int,
) -> bool {
    &&& 0 <= i < loads.len()
    &&& loads[i].spec_candidate(expected)
    &&& forall|j: int|
        0 <= j < loads.len() && (#[trigger] loads[j]).spec_candidate(expected)
            ==> loads[i].spec_backlog() <= loads[j].spec_backlog() && (j < i
            ==> loads[i].spec_backlog() < loads[j].spec_backlog())
}

/// The request brings enough new work to its hot rank, and the backlog there
/// exceeds the one on the cold rank by more than the hysteresis.
pub open spec fn is_imbalanced(config: RebindConfig, hot: PotentialLoad, cold: PotentialLoad) -> bool {
    &&& hot.request_prefill_delta >= config.min_new_tokens
    &&& hot.spec_backlog() > cold.spec_backlog() + config.hysteresis_tokens
}

/// The load calls for moving the session of `expected` to `cold`.
pub open spec fn sheds_to(
    config: RebindConfig,
    loads: Seq<PotentialLoad>,
    expected: AffinityBindingToken,
    cold: WorkerWithDpRank,
) -> bool {
    exists|h: int, c: int|
        #![trigger is_hot(loads, expected.binding.worker, h), is_coldest(loads, expected, c)]
        is_hot(loads, expected.binding.worker, h) && is_coldest(loads, expected, c)
            && is_imbalanced(config, loads[h], loads[c]) && cold == loads[c].spec_rank()
}

/// `cold` is the rank that the load calls for moving the session of `expected` to,
/// if there is one.
pub open spec fn is_target(
    cold: Option<WorkerWithDpRank>,
    config: RebindConfig,
    loads: Seq<PotentialLoad>,
    expected: AffinityBindingToken,
) -> bool {
    match cold {
        Some(rank) => sheds_to(config, loads, expected, rank),
        None => forall|rank: WorkerWithDpRank| !#[trigger] sheds_to(config, loads, expected, rank),
    }
}

/// The first load of the rank `hot`.
fn hot_load(loads: &Vec<PotentialLoad>, hot: WorkerWithDpRank) -> (found: Option<usize>)
    ensures
        match found {
            Some(i) => is_hot(loads@, hot, i as int),
            None => forall|i: int| !is_hot(loads@, hot, i),
        },
{
    let mut i: usize = 0;
    while i < loads.len()
        invariant
            i <= loads.len(),
            forall|j: int| 0 <= j < i ==> (#[trigger] loads@[j]).spec_rank() != hot,
        decreases loads.len() - i,
    {
        if loads[i].rank() == hot {
            return Some(i);
        }
        i = i + 1;
    }
    None
}

/// The first load with the smallest backlog among the ranks that the session of
/// `expected` could move to.
fn coldest_load(loads: &Vec<PotentialLoad>, expected: AffinityBindingToken) -> (found: Option<
    usize,
>)
    ensures
        match found {
            Some(i) => is_coldest(loads@, expected, i as int),
            None => forall|i: int| !is_coldest(loads@, expected, i),
        },
{
    let mut found: Option<usize> = None;
    let mut i: usize = 0;
    while i < loads.len()
        invariant
            i <= loads.len(),
            match found {
                Some(c) => {
                    &&& c < i
                    &&& loads@[c as int].spec_candidate(expected)
                    &&& forall|j: int|
                        0 <= j < i && (#[trigger] loads@[j]).spec_candidate(expected)
                            ==> loads@[c as int].spec_backlog() <= loads@[j].spec_backlog() && (j
                            < c ==> loads@[c as int].spec_backlog() < loads@[j].spec_backlog())
                },
                None => forall|j: int|
                    0 <= j < i ==> !(#[trigger] loads@[j]).spec_candidate(expected),
            },
        decreases loads.len() - i,
    {
        if loads[i].candidate(expected) {
            let colder = match found {
                Some(c) => loads[i].backlog() < loads[c].backlog(),
                None => true,
            };
            if colder {
                found = Some(i);
            }
        }
        i = i + 1;
    }
    found
}

/// The rank that the load calls for moving the session of `expected` to.
pub fn rebind_target(
    config: &RebindConfig,
    loads: &Vec<PotentialLoad>,
    expected: AffinityBindingToken,
) -> (cold: Option<WorkerWithDpRank>)
    ensures
        is_target(cold, *config, loads@, expected),
{
    let hot = match hot_load(loads, expected.binding.worker) {
        Some(hot) => hot,
        None => {
            return None;
        },
    };
    let cold = match coldest_load(loads, expected) {
        Some(cold) => cold,
        None => {
            return None;
        },
    };
    proof {
        assert forall|h: int, c: int|
            #![trigger is_hot(loads@, expected.binding.worker, h), is_coldest(loads@, expected, c)]
            is_hot(loads@, expected.binding.worker, h) && is_coldest(loads@, expected, c) implies h
            == hot && c == cold by {
            lemma_hot_is_unique(loads@, expected.binding.worker, h, hot as int);
            lemma_coldest_is_unique(loads@, expected, c, cold as int);
        }
    }
    let gap: usize = loads[hot].backlog().saturating_sub(loads[cold].backlog());
    if loads[hot].request_prefill_delta < config.min_new_tokens || gap <= config.hysteresis_tokens {
        return None;
    }
    Some(loads[cold].rank())
}

proof fn lemma_hot_is_unique(loads: Seq<PotentialLoad>, hot: WorkerWithDpRank, i: int, j: int)
    requires
        is_hot(loads, hot, i),
        is_hot(loads, hot, j),
    ensures
        i == j,
{
}

proof fn lemma_coldest_is_unique(
    loads: Seq<PotentialLoad>,
    expected: AffinityBindingToken,
    i: int,
    j: int,
)
    requires
        is_coldest(loads, expected, i),
        is_coldest(loads, expected, j),
    ensures
        i == j,
{
}

/// A session is to move: from the binding that was seen to the cold rank.
#[derive(Clone, Debug)]
pub struct RebindDecision {
    pub session_id: String,
    pub expected: AffinityBindingToken,
    pub cold: WorkerWithDpRank,
    pub ttl: Duration,
}

/// The request may have its session rebound: it is an ordinary turn, or a bind,
/// of a sticky session in the prefill phase.
///
/// An open and a close must reach the binding that is visible now.
pub open spec fn may_rebind(request: PreprocessedRequest, phase: RequestPhase) -> bool {
    &&& phase == RequestPhase::Prefill
    &&& crate::sticky::coordinator::sticky_session(request, phase) is Some
    &&& request.spec_session_control()->0.action != Some(SessionAction::Open)
    &&& request.spec_session_control()->0.action != Some(SessionAction::Close)
}

/// The loads, with the ranks as ineligible whose worker takes no part in
/// rebinds.
pub open spec fn supported_loads(
    configs: Map<u64, WorkerRuntimeConfig>,
    loads: Seq<PotentialLoad>,
) -> Seq<PotentialLoad> {
    Seq::new(
        loads.len(),
        |i: int|
            PotentialLoad {
                eligible: loads[i].eligible && supports_session_rebind(
                    configs,
                    loads[i].worker_id,
                ),
                ..loads[i]
            },
    )
}

/// The session of the request is to move to `cold`: it may be rebound, its hot
/// worker takes part in rebinds, the load calls for the move, and the session
/// was moved neither too often nor too recently.
pub open spec fn rebind_due(
    sticky: CoordinatorState,
    config: RebindConfig,
    request: PreprocessedRequest,
    phase: RequestPhase,
    expected: AffinityBindingToken,
    hot_supported: bool,
    loads: Seq<PotentialLoad>,
    now: Instant,
    cold: WorkerWithDpRank,
) -> bool {
    let session = crate::sticky::coordinator::sticky_session(request, phase)->0;
    &&& may_rebind(request, phase)
    &&& hot_supported
    &&& sheds_to(config, loads, expected, cold)
    &&& sticky.router.rebinds(session) < config.max_per_session
    &&& !sticky.router.cooling(session, Duration::spec_from_secs(REBIND_COOLDOWN_SECS), now)
}

/// `decision` moves the session of the request from `expected` to `cold`, with
/// the time to live that the request asks for.
pub open spec fn decides(
    decision: RebindDecision,
    request: PreprocessedRequest,
    expected: AffinityBindingToken,
    cold: WorkerWithDpRank,
) -> bool {
    &&& decision.session_id@ == request.spec_session_control()->0.session_id@
    &&& decision.expected == expected
    &&& decision.cold == cold
    &&& decision.ttl == Duration::spec_from_secs(request.spec_session_control()->0.timeout)
}

/// `decision` is the right one: it is made exactly when a rebind is due.
pub open spec fn is_decision(
    decision: Option<RebindDecision>,
    sticky: CoordinatorState,
    config: RebindConfig,
    request: PreprocessedRequest,
    phase: RequestPhase,
    expected: AffinityBindingToken,
    hot_supported: bool,
    loads: Seq<PotentialLoad>,
    now: Instant,
) -> bool {
    match decision {
        Some(found) => decides(found, request, expected, found.cold) && rebind_due(
            sticky,
            config,
            request,
            phase,
            expected,
            hot_supported,
            loads,
            now,
            found.cold,
        ),
        None => forall|cold: WorkerWithDpRank| !#[trigger] rebind_due(
            sticky,
            config,
            request,
            phase,
            expected,
            hot_supported,
            loads,
            now,
            cold,
        ),
    }
}

/// Mark the ranks as ineligible whose worker takes no part in rebinds.
pub fn mark_supported(
    configs: &HashMap<u64, WorkerRuntimeConfig>,
    loads: &Vec<PotentialLoad>,
) -> (marked: Vec<PotentialLoad>)
    ensures
        marked@ == supported_loads(configs@, loads@),
{
    let mut marked: Vec<PotentialLoad> = Vec::new();
    let mut i: usize = 0;
    while i < loads.len()
        invariant
            i <= loads.len(),
            marked@ == supported_loads(configs@, loads@).take(i as int),
        decreases loads.len() - i,
    {
        let load = loads[i];
        let supported = worker_supports_session_rebind(configs, load.worker_id);
        marked.push(PotentialLoad { eligible: load.eligible && supported, ..load });
        assert(marked@ =~= supported_loads(configs@, loads@).take(i + 1));
        i = i + 1;
    }
    assert(marked@ =~= supported_loads(configs@, loads@));
    marked
}

impl KvPushRouter {
    /// Whether the loads are worth asking for: the session of the request may be
    /// rebound, and its hot worker takes part in rebinds.
    pub fn considers_rebind(
        &self,
        request: &PreprocessedRequest,
        phase: RequestPhase,
        expected: Option<AffinityBindingToken>,
        configs: &HashMap<u64, WorkerRuntimeConfig>,
    ) -> (considered: bool)
        ensures
            considered == (may_rebind(*request, phase) && expected is Some
                && supports_session_rebind(configs@, expected->0.binding.worker.worker_id)),
    {
        match expected {
            Some(token) => rebind_session(request, phase).is_some()
                && worker_supports_session_rebind(configs, token.binding.worker.worker_id),
            None => false,
        }
    }

    /// Decide on a rebind without changing anything. `loads` holds only ranks
    /// as eligible whose worker takes part in rebinds.
    pub fn decide_rebind_at(
        &self,
        request: &PreprocessedRequest,
        phase: RequestPhase,
        expected: AffinityBindingToken,
        hot_supported: bool,
        loads: &Vec<PotentialLoad>,
        now: Instant,
    ) -> (decision: Option<RebindDecision>)
        ensures
            is_decision(
                decision,
                self.state().sticky,
                self.config,
                *request,
                phase,
                expected,
                hot_supported,
                loads@,
                now,
            ),
    {
        let session_id = match rebind_session(request, phase) {
            Some(session_id) => session_id,
            None => {
                return None;
            },
        };
        if !hot_supported {
            return None;
        }
        let cold = match rebind_target(&self.config, loads, expected) {
            Some(cold) => cold,
            None => {
                return None;
            },
        };
        if self.sticky.rebind_count(session_id) >= self.config.max_per_session {
            return None;
        }
        if self.sticky.in_rebind_cooldown_at(
            session_id,
            Duration::from_secs(REBIND_COOLDOWN_SECS),
            now,
        ) {
            return None;
        }
        let ttl = match request.session_control() {
            Some(control) => Duration::from_secs(control.timeout),
            None => {
                return None;
            },
        };
        Some(RebindDecision { session_id: session_id.to_owned(), expected, cold, ttl })
    }

    /// Decide on a rebind without changing anything: if the rank that the
    /// session is on is overloaded relative to the coldest eligible rank, that
    /// one is the proposed target.
    ///
    /// Without a stable binding, or where the loads could not be had, nothing is
    /// proposed.
    pub fn check_rebind_decision_at(
        &self,
        request: &PreprocessedRequest,
        phase: RequestPhase,
        expected: Option<AffinityBindingToken>,
        configs: &HashMap<u64, WorkerRuntimeConfig>,
        loads: Option<&Vec<PotentialLoad>>,
        now: Instant,
    ) -> (decision: Option<RebindDecision>)
        ensures
            match (expected, loads) {
                (Some(token), Some(loads)) => is_decision(
                    decision,
                    self.state().sticky,
                    self.config,
                    *request,
                    phase,
                    token,
                    supports_session_rebind(configs@, token.binding.worker.worker_id),
                    supported_loads(configs@, loads@),
                    now,
                ),
                _ => decision is None,
            },
    {
        let expected = match expected {
            Some(expected) => expected,
            None => {
                return None;
            },
        };
        let loads = match loads {
            Some(loads) => mark_supported(configs, loads),
            None => {
                return None;
            },
        };
        let hot_supported = worker_supports_session_rebind(
            configs,
            expected.binding.worker.worker_id,
        );
        self.decide_rebind_at(request, phase, expected, hot_supported, &loads, now)
    }

    /// Decide on a rebind without changing anything.
    pub fn check_rebind_decision(
        &self,
        request: &PreprocessedRequest,
        phase: RequestPhase,
        expected: Option<AffinityBindingToken>,
        configs: &HashMap<u64, WorkerRuntimeConfig>,
        loads: Option<&Vec<PotentialLoad>>,
    ) -> (decision: Option<RebindDecision>)
        ensures
            match (expected, loads) {
                (Some(token), Some(loads)) => exists|now: Instant| #[trigger]
                    self.sticky.shows(now) && now.in_range() && is_decision(
                        decision,
                        self.state().sticky,
                        self.config,
                        *request,
                        phase,
                        token,
                        supports_session_rebind(configs@, token.binding.worker.worker_id),
                        supported_loads(configs@, loads@),
                        now,
                    ),
                _ => decision is None,
            },
    {
        let now = self.sticky.now();
        self.check_rebind_decision_at(request, phase, expected, configs, loads, now)
    }
}

/// The session of a request that may have it rebound.
fn rebind_session(request: &PreprocessedRequest, phase: RequestPhase) -> (id: Option<&str>)
    ensures
        match id {
            Some(session_id) => may_rebind(*request, phase) && session_id@
                == crate::sticky::coordinator::sticky_session(*request, phase)->0,
            None => !may_rebind(*request, phase),
        },
{
    if phase != RequestPhase::Prefill {
        return None;
    }
    match request.session_control() {
        Some(control) => match control.action {
            Some(SessionAction::Open) => None,
            Some(SessionAction::Close) => None,
            _ => sticky_session_id_for_phase(request, phase),
        },
        None => None,
    }
}

} // verus!
