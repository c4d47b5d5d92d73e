//! What the rebind decision and the migration lookup give back.
//!
//! Each law takes one call of an operation and relates what came out to the raw
//! fields of the loads, the worker configurations, the request and the registry.

use vstd::prelude::*;

use std::collections::HashMap;

use crate::protocols::{PreprocessedRequest, RequestPhase, SessionAction, WorkerWithDpRank};
use crate::push_router::config;
use crate::push_router::config::RebindConfig;
use crate::push_router::decision;
use crate::push_router::decision::{
    DisaggregatedEndpoint, PotentialLoad, RebindDecision, WorkerRuntimeConfig,
};
use crate::push_router::migration;
use crate::push_router::migration::{
    PeerAddress, PeerHost, PeerHostSource, TransportType, WorkerInstance,
};
use crate::push_router::router::KvPushRouter;
use crate::sticky::router::{AffinityBindingToken, AffinityKind};
use crate::sticky::session_results;
use crate::sticky::state::CoordinatorState;
use crate::time::Instant;

verus! {

/// The tokens scheduled on a rank, without those of the request.
pub open spec fn waiting(load: PotentialLoad) -> int {
    if load.potential_prefill_tokens < load.request_prefill_delta {
        0
    } else {
        load.potential_prefill_tokens - load.request_prefill_delta
    }
}

/// The load is that of the rank that the session is bound to.
pub open spec fn is_of_bound_rank(load: PotentialLoad, expected: AffinityBindingToken) -> bool {
    load.worker_id == expected.binding.worker.worker_id && load.dp_rank
        == expected.binding.worker.dp_rank
}

/// The session could go to the rank of this load: it may take the request, it is
/// not the bound one, and it is on the same worker if the engine holds the session.
pub open spec fn could_take(load: PotentialLoad, expected: AffinityBindingToken) -> bool {
    &&& load.eligible
    &&& !is_of_bound_rank(load, expected)
    &&& load.worker_id == expected.binding.worker.worker_id || expected.binding.kind
        == AffinityKind::RouterOnly
}

/// `h` is the first load of the bound rank, and `c` the first one with the fewest
/// waiting tokens among the ranks that the session could go to.
pub open spec fn hot_and_coldest(
    loads: Seq<PotentialLoad>,
    expected: AffinityBindingToken,
    h: int,
    c: int,
) -> bool {
    &&& 0 <= h < loads.len()
    &&& is_of_bound_rank(loads[h], expected)
    &&& forall|j: int| 0 <= j < h ==> !is_of_bound_rank(#[trigger] loads[j], expected)
    &&& 0 <= c < loads.len()
    &&& could_take(loads[c], expected)
    &&& forall|j: int|
        0 <= j < loads.len() && could_take(#[trigger] loads[j], expected) ==> waiting(loads[c])
            <= waiting(loads[j]) && (j < c ==> waiting(loads[c]) < waiting(loads[j]))
}

/// The turn brings at least so much new work, and more than the hysteresis lies
/// between the waiting tokens of the two ranks.
pub open spec fn load_calls(config: RebindConfig, hot: PotentialLoad, cold: PotentialLoad) -> bool {
    hot.request_prefill_delta >= config.min_new_tokens && waiting(hot) - waiting(cold)
        > config.hysteresis_tokens
}

/// The load of a session moves it to the coldest rank that it could go to exactly
/// if the turn brings enough new work and the gap between the two ranks exceeds the
/// hysteresis. Nothing else holds the move up.
pub proof fn law_rebind_target_result(
    config: &RebindConfig,
    loads: &Vec<PotentialLoad>,
    expected: AffinityBindingToken,
    cold: Option<WorkerWithDpRank>,
    h: int,
    c: int,
)
    requires
        call_ensures(decision::rebind_target, (config, loads, expected), cold),
        hot_and_coldest(loads@, expected, h, c),
    ensures
        cold is Some <==> load_calls(*config, loads@[h], loads@[c]),
        cold is Some ==> cold->0.worker_id == loads@[c].worker_id && cold->0.dp_rank
            == loads@[c].dp_rank,
{
    lemma_shedding(*config, loads@, expected, h, c);
    match cold {
        Some(rank) => {
            assert(decision::sheds_to(*config, loads@, expected, rank));
        },
        None => {
            assert(!decision::sheds_to(*config, loads@, expected, loads@[c].spec_rank()));
        },
    }
}

/// Without a load of the bound rank, or without a rank to go to, the session stays.
pub proof fn law_no_rebind_target(
    config: &RebindConfig,
    loads: &Vec<PotentialLoad>,
    expected: AffinityBindingToken,
    cold: Option<WorkerWithDpRank>,
)
    requires
        call_ensures(decision::rebind_target, (config, loads, expected), cold),
        (forall|i: int|
            0 <= i < loads@.len() ==> !is_of_bound_rank(#[trigger] loads@[i], expected)) || (
        forall|i: int| 0 <= i < loads@.len() ==> !could_take(#[trigger] loads@[i], expected)),
    ensures
        cold is None,
{
}

pub(crate) proof fn lemma_shedding(
    config: RebindConfig,
    loads: Seq<PotentialLoad>,
    expected: AffinityBindingToken,
    h: int,
    c: int,
)
    requires
        hot_and_coldest(loads, expected, h, c),
    ensures
        load_calls(config, loads[h], loads[c]) <==> decision::sheds_to(
            config,
            loads,
            expected,
            loads[c].spec_rank(),
        ),
        forall|cold: WorkerWithDpRank| #[trigger]
            decision::sheds_to(config, loads, expected, cold) ==> cold == loads[c].spec_rank(),
{
    let hot = expected.binding.worker;
    assert(decision::is_hot(loads, hot, h)) by {
        assert forall|j: int| 0 <= j < h implies (#[trigger] loads[j]).spec_rank() != hot by {
            assert(!is_of_bound_rank(loads[j], expected));
        }
    }
    assert(decision::is_coldest(loads, expected, c)) by {
        assert forall|j: int| 0 <= j < loads.len() && (#[trigger] loads[j]).spec_candidate(
            expected,
        ) implies loads[c].spec_backlog() <= loads[j].spec_backlog() && (j < c
            ==> loads[c].spec_backlog() < loads[j].spec_backlog()) by {
            assert(could_take(loads[j], expected));
        }
    }
    assert forall|g: int, d: int|
        #![trigger decision::is_hot(loads, hot, g), decision::is_coldest(loads, expected, d)]
        decision::is_hot(loads, hot, g) && decision::is_coldest(loads, expected, d) implies g == h
        && d == c by {
        assert(loads[g].spec_rank() == hot && loads[h].spec_rank() == hot);
        assert(loads[d].spec_candidate(expected) && loads[c].spec_candidate(expected));
    }
}

/// The worker is known, says under the key `kv_session_rebind_v1` that it confirms
/// prefills, and publishes host and port of its bootstrap endpoint.
pub open spec fn confirms_prefills(
    configs: Map<u64, WorkerRuntimeConfig>,
    worker_id: u64,
) -> bool {
    let data = configs[worker_id].runtime_data@;
    let endpoint = configs[worker_id].disaggregated_endpoint;
    &&& configs.contains_key(worker_id)
    &&& data.contains_key("kv_session_rebind_v1"@)
    &&& crate::json::json_boolean(data["kv_session_rebind_v1"@]) == Some(true)
    &&& endpoint is Some
    &&& endpoint->0.bootstrap_host is Some
    &&& endpoint->0.bootstrap_port is Some
}

/// What is found out about a worker.
pub proof fn law_worker_supports_result(
    configs: &HashMap<u64, WorkerRuntimeConfig>,
    worker_id: u64,
    supported: bool,
)
    requires
        call_ensures(
            decision::worker_supports_session_rebind,
            (configs, worker_id),
            supported,
        ),
    ensures
        supported <==> confirms_prefills(configs@, worker_id),
{
}

/// Marking changes nothing of a load but its eligibility, and takes that away
/// exactly where the worker takes no part in rebinds.
pub proof fn law_mark_supported_result(
    configs: &HashMap<u64, WorkerRuntimeConfig>,
    loads: &Vec<PotentialLoad>,
    marked: Vec<PotentialLoad>,
)
    requires
        call_ensures(decision::mark_supported, (configs, loads), marked),
    ensures
        marked@.len() == loads@.len(),
        forall|i: int|
            #![trigger marked@[i]]
            0 <= i < marked@.len() ==> {
                &&& marked@[i].worker_id == loads@[i].worker_id
                &&& marked@[i].dp_rank == loads@[i].dp_rank
                &&& marked@[i].potential_prefill_tokens == loads@[i].potential_prefill_tokens
                &&& marked@[i].request_prefill_delta == loads@[i].request_prefill_delta
                &&& marked@[i].eligible <==> loads@[i].eligible && confirms_prefills(
                    configs@,
                    loads@[i].worker_id,
                )
            },
{
}

/// The request is a prefill turn of a session that decides where it goes, and
/// neither opens nor closes the session.
pub open spec fn is_movable_turn(request: PreprocessedRequest, phase: RequestPhase) -> bool {
    &&& phase is Prefill
    &&& session_results::sticks(request, phase)
    &&& session_results::control(request).action != Some(SessionAction::Open)
    &&& session_results::control(request).action != Some(SessionAction::Close)
}

/// The session was moved fewer times than the configuration allows, and not within
/// the last five seconds.
pub open spec fn is_rested(
    sticky: CoordinatorState,
    config: RebindConfig,
    session: Seq<char>,
    now: Instant,
) -> bool {
    let counts = sticky.router.rebind_counts;
    let stamps = sticky.router.last_rebind;
    &&& if counts.contains_key(session) {
        counts[session] < config.max_per_session
    } else {
        0 < config.max_per_session
    }
    &&& stamps.contains_key(session) ==> stamps[session].nanos + 5000000000 <= now.nanos
}

/// A rebind is decided on exactly for a movable turn of a rested session whose
/// worker takes part in rebinds and whose load calls for it. The decision names the
/// session, the binding it was made on, the coldest rank and the timeout of the
/// request.
pub proof fn law_decide_rebind_result(
    router: &KvPushRouter,
    request: &PreprocessedRequest,
    phase: RequestPhase,
    expected: AffinityBindingToken,
    hot_supported: bool,
    loads: &Vec<PotentialLoad>,
    now: Instant,
    made: Option<RebindDecision>,
    h: int,
    c: int,
)
    requires
        call_ensures(
            KvPushRouter::decide_rebind_at,
            (router, request, phase, expected, hot_supported, loads, now),
            made,
        ),
        hot_and_coldest(loads@, expected, h, c),
    ensures
        made is Some <==> {
            &&& is_movable_turn(*request, phase)
            &&& hot_supported
            &&& is_rested(
                router.sticky.state(),
                router.config,
                session_results::session_of(*request),
                now,
            )
            &&& load_calls(router.config, loads@[h], loads@[c])
        },
        made is Some ==> {
            &&& made->0.session_id@ == session_results::session_of(*request)
            &&& made->0.expected == expected
            &&& made->0.cold.worker_id == loads@[c].worker_id
            &&& made->0.cold.dp_rank == loads@[c].dp_rank
            &&& made->0.ttl.secs == session_results::control(*request).timeout
            &&& made->0.ttl.subsec_nanos == 0
        },
{
    lemma_shedding(router.config, loads@, expected, h, c);
    lemma_due(router, *request, phase, expected, hot_supported, loads@, now, h, c);
}

pub(crate) proof fn lemma_due(
    router: &KvPushRouter,
    request: PreprocessedRequest,
    phase: RequestPhase,
    expected: AffinityBindingToken,
    hot_supported: bool,
    loads: Seq<PotentialLoad>,
    now: Instant,
    h: int,
    c: int,
)
    requires
        hot_and_coldest(loads, expected, h, c),
    ensures
        decision::rebind_due(
            router.state().sticky,
            router.config,
            request,
            phase,
            expected,
            hot_supported,
            loads,
            now,
            loads[c].spec_rank(),
        ) <==> {
            &&& is_movable_turn(request, phase)
            &&& hot_supported
            &&& is_rested(
                router.sticky.state(),
                router.config,
                session_results::session_of(request),
                now,
            )
            &&& load_calls(router.config, loads[h], loads[c])
        },
{
    lemma_shedding(router.config, loads, expected, h, c);
}

/// The loads as the decision sees them: only ranks of workers that confirm prefills
/// count as eligible.
pub open spec fn usable(
    configs: Map<u64, WorkerRuntimeConfig>,
    loads: Seq<PotentialLoad>,
) -> Seq<PotentialLoad> {
    loads.map_values(
        |load: PotentialLoad|
            PotentialLoad {
                eligible: load.eligible && confirms_prefills(configs, load.worker_id),
                ..load
            },
    )
}

pub(crate) proof fn lemma_usable(configs: Map<u64, WorkerRuntimeConfig>, loads: Seq<PotentialLoad>)
    ensures
        usable(configs, loads) == decision::supported_loads(configs, loads),
{
    assert(usable(configs, loads) =~= decision::supported_loads(configs, loads));
}

/// The same of the decision that finds out itself which workers take part.
pub proof fn law_check_rebind_decision_result(
    router: &KvPushRouter,
    request: &PreprocessedRequest,
    phase: RequestPhase,
    expected: AffinityBindingToken,
    configs: &HashMap<u64, WorkerRuntimeConfig>,
    loads: &Vec<PotentialLoad>,
    now: Instant,
    made: Option<RebindDecision>,
    h: int,
    c: int,
)
    requires
        call_ensures(
            KvPushRouter::check_rebind_decision_at,
            (router, request, phase, Some(expected), configs, Some(loads), now),
            made,
        ),
        hot_and_coldest(usable(configs@, loads@), expected, h, c),
    ensures
        made is Some <==> {
            &&& is_movable_turn(*request, phase)
            &&& confirms_prefills(configs@, expected.binding.worker.worker_id)
            &&& is_rested(
                router.sticky.state(),
                router.config,
                session_results::session_of(*request),
                now,
            )
            &&& load_calls(router.config, loads@[h], loads@[c])
        },
        made is Some ==> {
            &&& made->0.session_id@ == session_results::session_of(*request)
            &&& made->0.expected == expected
            &&& made->0.cold.worker_id == loads@[c].worker_id
            &&& made->0.cold.dp_rank == loads@[c].dp_rank
            &&& made->0.ttl.secs == session_results::control(*request).timeout
            &&& made->0.ttl.subsec_nanos == 0
        },
{
    lemma_usable(configs@, loads@);
    let marked = usable(configs@, loads@);
    let hot_supported = confirms_prefills(configs@, expected.binding.worker.worker_id);
    lemma_shedding(router.config, marked, expected, h, c);
    lemma_due(router, *request, phase, expected, hot_supported, marked, now, h, c);
}

/// As of a moment that the clock shows.
pub proof fn law_clocked_check_rebind_decision_result(
    router: &KvPushRouter,
    request: &PreprocessedRequest,
    phase: RequestPhase,
    expected: AffinityBindingToken,
    configs: &HashMap<u64, WorkerRuntimeConfig>,
    loads: &Vec<PotentialLoad>,
    made: Option<RebindDecision>,
    h: int,
    c: int,
)
    requires
        call_ensures(
            KvPushRouter::check_rebind_decision,
            (router, request, phase, Some(expected), configs, Some(loads)),
            made,
        ),
        hot_and_coldest(usable(configs@, loads@), expected, h, c),
    ensures
        exists|now: Instant| #[trigger]
            router.sticky.shows(now) && (made is Some <==> {
                &&& is_movable_turn(*request, phase)
                &&& confirms_prefills(configs@, expected.binding.worker.worker_id)
                &&& is_rested(
                    router.sticky.state(),
                    router.config,
                    session_results::session_of(*request),
                    now,
                )
                &&& load_calls(router.config, loads@[h], loads@[c])
            }),
        made is Some ==> {
            &&& made->0.session_id@ == session_results::session_of(*request)
            &&& made->0.expected == expected
            &&& made->0.cold.worker_id == loads@[c].worker_id
            &&& made->0.cold.dp_rank == loads@[c].dp_rank
            &&& made->0.ttl.secs == session_results::control(*request).timeout
            &&& made->0.ttl.subsec_nanos == 0
        },
{
    lemma_usable(configs@, loads@);
    let marked = usable(configs@, loads@);
    let hot_supported = confirms_prefills(configs@, expected.binding.worker.worker_id);
    lemma_shedding(router.config, marked, expected, h, c);
    let now = choose|now: Instant| #[trigger]
        router.sticky.shows(now) && now.in_range() && decision::is_decision(
            made,
            router.state().sticky,
            router.config,
            *request,
            phase,
            expected,
            hot_supported,
            marked,
            now,
        );
    lemma_due(router, *request, phase, expected, hot_supported, marked, now, h, c);
}

/// Without a binding or without loads nothing is decided.
pub proof fn law_no_decision_on_nothing(
    router: &KvPushRouter,
    request: &PreprocessedRequest,
    phase: RequestPhase,
    expected: Option<AffinityBindingToken>,
    configs: &HashMap<u64, WorkerRuntimeConfig>,
    loads: Option<&Vec<PotentialLoad>>,
    now: Instant,
    made: Option<RebindDecision>,
)
    requires
        call_ensures(
            KvPushRouter::check_rebind_decision_at,
            (router, request, phase, expected, configs, loads, now),
            made,
        ),
        expected is None || loads is None,
    ensures
        made is None,
{
}

/// The loads are asked for exactly for a movable turn with a binding whose worker
/// takes part in rebinds.
pub proof fn law_considers_rebind_result(
    router: &KvPushRouter,
    request: &PreprocessedRequest,
    phase: RequestPhase,
    expected: Option<AffinityBindingToken>,
    configs: &HashMap<u64, WorkerRuntimeConfig>,
    considered: bool,
)
    requires
        call_ensures(
            KvPushRouter::considers_rebind,
            (router, request, phase, expected, configs),
            considered,
        ),
    ensures
        considered <==> {
            &&& is_movable_turn(*request, phase)
            &&& expected is Some
            &&& confirms_prefills(configs@, expected->0.binding.worker.worker_id)
        },
{
}

/// A knob takes any number that fits, and its default otherwise.
pub proof fn law_knob_results(
    setting: Option<&str>,
    min_new: usize,
    max_moves: u32,
    hysteresis: usize,
)
    requires
        call_ensures(config::rebind_min_new_tokens, (setting,), min_new),
        call_ensures(config::rebind_max_per_session, (setting,), max_moves),
        call_ensures(config::rebind_hysteresis_tokens, (setting,), hysteresis),
    ensures
        ({
            let number = crate::text::parsed_number(setting->0@);
            let given = setting is Some && number is Some;
            &&& given && number->0 <= usize::MAX ==> min_new == number->0 && hysteresis
                == number->0
            &&& given && number->0 <= u32::MAX ==> max_moves == number->0
            &&& !(given && number->0 <= usize::MAX) ==> min_new == 4096 && hysteresis == 4096
            &&& !(given && number->0 <= u32::MAX) ==> max_moves == 4
        }),
{
}

/// The migration port of a rank lies that many ports above 20000, as far as there
/// are ports.
pub proof fn law_peer_port_result(dp_rank: u32, port: Option<u16>)
    requires
        call_ensures(migration::migration_peer_port, (dp_rank,), port),
    ensures
        port is Some <==> dp_rank <= 45535,
        port is Some ==> port->0 == 20000 + dp_rank,
{
}

/// The socket part of an address holds no slash. With or without the scheme in
/// front, the address goes on from it by a slash or not at all.
pub proof fn law_socket_part_result(address: &str, socket: String)
    requires
        call_ensures(migration::tcp_socket_part, (address,), socket),
    ensures
        forall|i: int| 0 <= i < socket@.len() ==> #[trigger] socket@[i] != '/',
        ({
            let rest = if "tcp://"@.is_prefix_of(address@) {
                address@.skip("tcp://"@.len() as int)
            } else {
                address@
            };
            &&& socket@.is_prefix_of(rest)
            &&& socket@.len() < rest.len() ==> rest[socket@.len() as int] == '/'
        }),
{
    reveal_strlit("tcp://");
    lemma_up_to_slash(migration::without_scheme(address@));
}

proof fn lemma_up_to_slash(text: Seq<char>)
    ensures
        ({
            let part = migration::up_to_slash(text);
            &&& forall|i: int| 0 <= i < part.len() ==> #[trigger] part[i] != '/'
            &&& part.is_prefix_of(text)
            &&& part.len() < text.len() ==> text[part.len() as int] == '/'
        }),
    decreases text.len(),
{
    if text.len() > 0 && text[0] != '/' {
        lemma_up_to_slash(text.skip(1));
        let rest = migration::up_to_slash(text.skip(1));
        let part = migration::up_to_slash(text);
        assert(part == seq![text[0]] + rest);
        assert forall|i: int| 0 <= i < part.len() implies #[trigger] part[i] != '/' && part[i]
            == text[i] by {
            if i > 0 {
                assert(part[i] == rest[i - 1]);
                assert(rest[i - 1] == text.skip(1)[i - 1]);
            }
        }
        assert(part =~= text.subrange(0, part.len() as int));
        if part.len() < text.len() {
            assert(text.skip(1)[rest.len() as int] == text[part.len() as int]);
        }
    } else {
        assert(migration::up_to_slash(text) =~= text.subrange(0, 0));
    }
}

/// `i` is the first instance of the worker.
pub open spec fn first_instance(
    instances: Seq<WorkerInstance>,
    worker_id: u64,
    i: int,
) -> bool {
    &&& 0 <= i < instances.len()
    &&& instances[i].instance_id == worker_id
    &&& forall|j: int| 0 <= j < i ==> (#[trigger] instances[j]).instance_id != worker_id
}

/// What the registry and the configuration give as the migration peer of a rank
/// whose first instance is `i`: the socket part of a TCP address; without one, the
/// configured host, if there is one.
pub open spec fn is_peer(
    configured: Option<PeerHost>,
    instances: Seq<WorkerInstance>,
    src: WorkerWithDpRank,
    i: int,
    address: Option<PeerAddress>,
) -> bool {
    &&& address is Some <==> src.dp_rank <= 45535 && (instances[i].transport is Tcp
        || configured is Some)
    &&& address is Some ==> {
        &&& address->0.port == 20000 + src.dp_rank
        &&& instances[i].transport is Tcp ==> address->0.host is Socket
            && address->0.host->Socket_0@ == migration::up_to_slash(
            migration::without_scheme(instances[i].transport->Tcp_0@),
        )
        &&& instances[i].transport is Nats ==> address->0.host == PeerHostSource::Known(
            configured->0,
        )
    }
}

/// What is found of the migration peer of a registered worker, and of a session
/// that moves from one rank to another.
pub proof fn law_migration_source_result(
    router: &KvPushRouter,
    hot: WorkerWithDpRank,
    cold: WorkerWithDpRank,
    instances: &Vec<WorkerInstance>,
    resolved: Option<PeerAddress>,
    source: Option<PeerAddress>,
    i: int,
)
    requires
        call_ensures(
            KvPushRouter::resolve_migration_endpoint,
            (router, hot, instances),
            resolved,
        ),
        call_ensures(KvPushRouter::migration_source, (router, hot, cold, instances), source),
        first_instance(instances@, hot.worker_id, i),
    ensures
        is_peer(router.config.peer_host, instances@, hot, i, resolved),
        hot.worker_id == cold.worker_id || router.config.peer_host is Some ==> is_peer(
            router.config.peer_host,
            instances@,
            hot,
            i,
            source,
        ),
        hot.worker_id != cold.worker_id && router.config.peer_host is None ==> source is None,
{
    assert(migration::is_instance(instances@, hot.worker_id, i));
    assert forall|j: int| #[trigger]
        migration::is_instance(instances@, hot.worker_id, j) implies j == i by {
        assert(instances@[j].instance_id == hot.worker_id);
        assert(instances@[i].instance_id == hot.worker_id);
    }
}

/// A worker that is not registered has no migration peer.
pub proof fn law_unknown_worker_has_no_peer(
    router: &KvPushRouter,
    hot: WorkerWithDpRank,
    instances: &Vec<WorkerInstance>,
    resolved: Option<PeerAddress>,
)
    requires
        call_ensures(
            KvPushRouter::resolve_migration_endpoint,
            (router, hot, instances),
            resolved,
        ),
        forall|j: int|
            0 <= j < instances@.len() ==> (#[trigger] instances@[j]).instance_id != hot.worker_id,
    ensures
        resolved is None,
{
}

/// The endpoint of a peer is its host, in brackets if it is of version six, and its
/// port in decimal notation, behind the scheme. The host is the one that was read
/// where it had to be read.
pub proof fn law_endpoint_result(
    address: PeerAddress,
    read: Option<PeerHost>,
    endpoint: Option<String>,
)
    requires
        call_ensures(PeerAddress::endpoint, (address, read), endpoint),
    ensures
        endpoint is Some <==> address.host is Known || read is Some,
        endpoint is Some ==> {
            let host = if address.host is Known {
                address.host->Known_0
            } else {
                read->0
            };
            let port = crate::text::decimal_text(address.port as nat);
            endpoint->0@ == match host {
                PeerHost::V4(text) => "tcp://"@ + text@ + ":"@ + port,
                PeerHost::V6(text) => "tcp://"@ + ("["@ + text@ + "]"@) + ":"@ + port,
            }
        },
{
}

/// The directive names the endpoint, the rank and the session, and changes nothing
/// else of the request; without an endpoint nothing changes at all.
pub proof fn law_attach_migrate_from_result(
    request: &mut PreprocessedRequest,
    session_id: &str,
    hot: WorkerWithDpRank,
    endpoint: Option<String>,
)
    requires
        call_ensures(
            migration::attach_migrate_from,
            (request, session_id, hot, endpoint),
            (),
        ),
    ensures
        endpoint is None ==> *final(request) == *old(request),
        endpoint is Some ==> {
            &&& final(request).migrate_from is Some
            &&& final(request).migrate_from->0.source_endpoint@ == endpoint->0@
            &&& final(request).migrate_from->0.source_dp_rank == hot.dp_rank
            &&& final(request).migrate_from->0.session_id@ == session_id@
            &&& final(request).token_ids == old(request).token_ids
            &&& final(request).routing == old(request).routing
            &&& final(request).tracker_phase == old(request).tracker_phase
            &&& final(request).query_instance_id == old(request).query_instance_id
        },
{
}

/// The rank, the waiting tokens and the candidacy of a load are told by its fields.
pub proof fn law_load_results(
    load: &PotentialLoad,
    expected: AffinityBindingToken,
    rank: WorkerWithDpRank,
    backlog: usize,
    fits: bool,
)
    requires
        call_ensures(PotentialLoad::rank, (load,), rank),
        call_ensures(PotentialLoad::backlog, (load,), backlog),
        call_ensures(PotentialLoad::candidate, (load, expected), fits),
    ensures
        rank.worker_id == load.worker_id && rank.dp_rank == load.dp_rank,
        backlog == waiting(*load),
        fits <==> could_take(*load, expected),
{
}

/// A worker configuration holds what was set last under each key, and a worker takes
/// part in rebinds by its advertisement and its bootstrap endpoint.
pub proof fn law_worker_config_results(
    endpoint: Option<DisaggregatedEndpoint>,
    fresh: WorkerRuntimeConfig,
    config: &mut WorkerRuntimeConfig,
    key: String,
    value: serde_json::Value,
    other: &WorkerRuntimeConfig,
    advertises: bool,
    accepted: bool,
)
    requires
        call_ensures(WorkerRuntimeConfig::new, (endpoint,), fresh),
        call_ensures(WorkerRuntimeConfig::set_runtime_data, (config, key, value), ()),
        call_ensures(WorkerRuntimeConfig::accepts_rebind, (other, advertises), accepted),
    ensures
        fresh.disaggregated_endpoint == endpoint,
        forall|name: Seq<char>| !fresh.runtime_data@.contains_key(name),
        final(config).runtime_data@.contains_key(key@),
        final(config).runtime_data@[key@] == value,
        forall|name: Seq<char>|
            #![trigger final(config).runtime_data@.contains_key(name)]
            name != key@ ==> final(config).runtime_data@.contains_key(name) == old(
                config,
            ).runtime_data@.contains_key(name) && final(config).runtime_data@[name] == old(
                config,
            ).runtime_data@[name],
        final(config).disaggregated_endpoint == old(config).disaggregated_endpoint,
        accepted <==> advertises && other.disaggregated_endpoint is Some
            && other.disaggregated_endpoint->0.bootstrap_host is Some
            && other.disaggregated_endpoint->0.bootstrap_port is Some,
{
}

} // verus!
