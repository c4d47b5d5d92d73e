use std::collections::HashMap;

use kv_router::protocols::{
    AnnotationValue, PreprocessedRequest, RequestPhase, RoutingHints, SessionAction, SessionControl,
    WorkerIdInfo, WorkerWithDpRank,
};
use kv_router::push_router::config::{
    rebind_hysteresis_tokens, rebind_max_per_session, rebind_min_new_tokens, RebindConfig,
};
use kv_router::push_router::decision::{
    mark_supported, rebind_target, worker_supports_session_rebind, DisaggregatedEndpoint,
    PotentialLoad, WorkerRuntimeConfig, SESSION_REBIND_CAPABILITY_KEY,
};
use kv_router::push_router::direct::DirectRoutingRouter;
use kv_router::push_router::dispatch::{pin_dp_rank, Dispatch};
use kv_router::push_router::migration::{
    attach_migrate_from, migration_peer_port, tcp_socket_part, PeerAddress, PeerHost,
    PeerHostSource, TransportType, WorkerInstance,
};
use kv_router::push_router::router::KvPushRouter;
use kv_router::push_router::selection::{
    after_selection, input_blocks, query_response, reject_unexpected_final_target, select_request,
    select_request_for_final_target, track_selection, tracker_record, FailedSelection,
    GenerateStep,
    RoutingRecord, SelectionPlan, WorkerSelection,
};
use kv_router::sticky::revisions::AffinityRevisions;
use kv_router::sticky::router::{
    AffinityBinding, AffinityBindingToken, AffinityKind,
};
use kv_router::text::decimal;
use kv_router::time::Instant;

fn at(seconds: u128) -> Instant {
    Instant {
        nanos: seconds * 1_000_000_000,
    }
}

fn config() -> RebindConfig {
    RebindConfig {
        hysteresis_tokens: 100,
        min_new_tokens: 10,
        max_per_session: 2,
        peer_host: None,
    }
}

fn token(worker_id: u64, dp_rank: u32, kind: AffinityKind) -> AffinityBindingToken {
    AffinityBindingToken {
        binding: AffinityBinding {
            worker: WorkerWithDpRank::new(worker_id, dp_rank),
            kind,
        },
        revision: 1,
    }
}

fn load(worker_id: u64, dp_rank: u32, backlog: usize, delta: usize) -> PotentialLoad {
    PotentialLoad {
        worker_id,
        dp_rank,
        potential_prefill_tokens: backlog + delta,
        request_prefill_delta: delta,
        eligible: true,
    }
}

fn session_request(action: Option<SessionAction>) -> PreprocessedRequest {
    PreprocessedRequest {
        token_ids: vec![1, 2, 3],
        routing: Some(RoutingHints {
            session_control: Some(SessionControl {
                session_id: "sess".to_string(),
                action,
                timeout: 300,
            }),
            ..Default::default()
        }),
        tracker_phase: None,
        query_instance_id: None,
        migrate_from: None,
    }
}

fn selection() -> WorkerSelection {
    WorkerSelection {
        instance_id: 4,
        dp_rank: 1,
        scheduler_tracked: true,
        cached_tokens: 12,
        routing_hashes: None,
    }
}

fn capable() -> WorkerRuntimeConfig {
    let mut config = WorkerRuntimeConfig::new(Some(DisaggregatedEndpoint {
        bootstrap_host: Some("127.0.0.1".to_string()),
        bootstrap_port: Some(18000),
    }));
    config.set_runtime_data(
        SESSION_REBIND_CAPABILITY_KEY.to_string(),
        serde_json::Value::Bool(true),
    );
    config
}

#[test]
fn knobs_read_their_settings() {
    assert_eq!(rebind_hysteresis_tokens(None), 4096);
    assert_eq!(rebind_min_new_tokens(None), 4096);
    assert_eq!(rebind_max_per_session(None), 4);
    assert_eq!(rebind_hysteresis_tokens(Some("256")), 256);
    assert_eq!(rebind_min_new_tokens(Some("+0")), 0);
    assert_eq!(rebind_max_per_session(Some("007")), 7);
    for setting in ["", "+", "-1", " 5", "5 ", "1_000", "0x10", "4294967296"] {
        assert_eq!(rebind_max_per_session(Some(setting)), 4, "{setting:?}");
    }
    assert_eq!(rebind_max_per_session(Some("4294967295")), u32::MAX);
    assert_eq!(rebind_min_new_tokens(Some("many")), 4096);
    assert_eq!(
        rebind_hysteresis_tokens(Some("99999999999999999999999999")),
        4096
    );
}

#[test]
fn numbers_are_written_in_decimal() {
    assert_eq!(decimal(0), "0");
    assert_eq!(decimal(9), "9");
    assert_eq!(decimal(10), "10");
    assert_eq!(decimal(20001), "20001");
    assert_eq!(decimal(u64::MAX), "18446744073709551615");
    assert_eq!(rebind_max_per_session(Some(&decimal(123))), 123);
}

#[test]
fn session_moves_only_beyond_the_hysteresis() {
    let expected = token(1, 0, AffinityKind::RouterOnly);
    let within = vec![load(1, 0, 600, 20), load(2, 0, 500, 50)];
    assert_eq!(rebind_target(&config(), &within, expected), None);
    let beyond = vec![load(1, 0, 601, 20), load(2, 0, 500, 50)];
    assert_eq!(
        rebind_target(&config(), &beyond, expected),
        Some(WorkerWithDpRank::new(2, 0))
    );
}

#[test]
fn small_turns_stay_on_the_hot_rank() {
    let expected = token(1, 0, AffinityKind::RouterOnly);
    let small = vec![load(1, 0, 5000, 9), load(2, 0, 0, 50)];
    assert_eq!(rebind_target(&config(), &small, expected), None);
    let enough = vec![load(1, 0, 5000, 10), load(2, 0, 0, 50)];
    assert!(rebind_target(&config(), &enough, expected).is_some());
}

#[test]
fn first_of_the_coldest_ranks_is_chosen_by_raw_backlog() {
    let expected = token(1, 0, AffinityKind::RouterOnly);
    let mut loads = vec![
        load(3, 0, 20, 0),
        load(1, 0, 5000, 10),
        load(2, 0, 10, 4000),
        load(2, 1, 10, 0),
        load(4, 0, 0, 0),
    ];
    loads[4].eligible = false;
    assert_eq!(
        rebind_target(&config(), &loads, expected),
        Some(WorkerWithDpRank::new(2, 0))
    );
    assert_eq!(loads[2].backlog(), 10);
    loads[2].request_prefill_delta = 9000;
    assert_eq!(loads[2].backlog(), 0);
}

#[test]
fn engine_backed_session_stays_on_its_worker() {
    let expected = token(1, 0, AffinityKind::EngineBacked);
    let loads = vec![load(1, 0, 5000, 10), load(2, 0, 0, 10), load(1, 1, 300, 10)];
    assert_eq!(
        rebind_target(&config(), &loads, expected),
        Some(WorkerWithDpRank::new(1, 1))
    );
    let across = vec![load(1, 0, 5000, 10), load(2, 0, 0, 10)];
    assert_eq!(rebind_target(&config(), &across, expected), None);
}

#[test]
fn unknown_hot_rank_stops_the_rebind() {
    let expected = token(1, 0, AffinityKind::RouterOnly);
    let loads = vec![load(1, 1, 5000, 10), load(2, 0, 0, 10)];
    assert_eq!(rebind_target(&config(), &loads, expected), None);
    assert_eq!(rebind_target(&config(), &Vec::new(), expected), None);
}

#[test]
fn decision_keeps_to_phase_cap_and_cooldown() {
    let mut revisions = AffinityRevisions::new();
    let mut router = KvPushRouter::new(config());
    let request = session_request(None);
    let bind = session_request(Some(SessionAction::Bind));
    let hot = WorkerWithDpRank::new(1, 0);
    let cold = WorkerWithDpRank::new(1, 1);
    router.sticky.on_routed_at(&bind, hot, at(100), &mut revisions);
    let mut configs = HashMap::new();
    configs.insert(1, capable());
    let phase = RequestPhase::Prefill;
    let loads = vec![load(1, 0, 5000, 10), load(1, 1, 0, 10)];
    let back = vec![load(1, 0, 0, 10), load(1, 1, 5000, 10)];
    let mut now = 100;
    let mut moves = 0;
    loop {
        let expected = router.sticky.rebind_token_for_phase_at(&request, phase, at(now));
        let here = if moves % 2 == 0 { &loads } else { &back };
        let decision = router.check_rebind_decision_at(
            &request,
            phase,
            expected,
            &configs,
            Some(here),
            at(now),
        );
        let decision = match decision {
            Some(decision) => decision,
            None => break,
        };
        assert_eq!(decision.session_id, "sess");
        assert_eq!(decision.cold, if moves % 2 == 0 { cold } else { hot });
        assert_eq!(decision.ttl.secs, 300);
        let guard = router
            .sticky
            .begin_rebind_at(
                &decision.session_id,
                decision.expected,
                decision.cold,
                decision.ttl,
                at(now),
                &mut revisions,
            )
            .unwrap();
        assert!(guard.commit_at(&mut router.sticky, at(now)));
        moves += 1;
        let expected = router.sticky.rebind_token_for_phase_at(&request, phase, at(now));
        let next = if moves % 2 == 0 { &loads } else { &back };
        assert!(
            router
                .check_rebind_decision_at(
                    &request,
                    phase,
                    expected,
                    &configs,
                    Some(next),
                    at(now + 4)
                )
                .is_none(),
            "a session under cooldown stays"
        );
        now += 5;
    }
    assert_eq!(moves, 2);

    let mut fresh = KvPushRouter::new(config());
    fresh.sticky.on_routed_at(&bind, hot, at(100), &mut revisions);
    let expected = fresh
        .sticky
        .rebind_token_for_phase_at(&request, phase, at(100));
    let decide = |request: &PreprocessedRequest, phase, expected, loads| {
        fresh
            .check_rebind_decision_at(request, phase, expected, &configs, loads, at(100))
            .is_some()
    };
    assert!(decide(&request, phase, expected, Some(&loads)));
    assert!(decide(&bind, phase, expected, Some(&loads)));
    assert!(!decide(&request, phase, expected, None));
    assert!(!decide(&request, phase, None, Some(&loads)));
    assert!(!decide(&request, RequestPhase::Decode, expected, Some(&loads)));
    for action in [SessionAction::Open, SessionAction::Close] {
        assert!(!decide(
            &session_request(Some(action)),
            phase,
            expected,
            Some(&loads)
        ));
    }
    assert!(fresh.considers_rebind(&request, phase, expected, &configs));
    assert!(!fresh.considers_rebind(&request, phase, expected, &HashMap::new()));
    assert!(!fresh.considers_rebind(&request, RequestPhase::Aggregated, expected, &configs));
}

#[test]
fn capability_needs_the_flag_and_the_bootstrap_endpoint() {
    let mut configs = HashMap::new();
    configs.insert(1, capable());
    let mut without_port = capable();
    without_port.disaggregated_endpoint = Some(DisaggregatedEndpoint {
        bootstrap_host: Some("127.0.0.1".to_string()),
        bootstrap_port: None,
    });
    configs.insert(2, without_port);
    let mut switched_off = capable();
    switched_off.set_runtime_data(
        SESSION_REBIND_CAPABILITY_KEY.to_string(),
        serde_json::Value::Bool(false),
    );
    configs.insert(3, switched_off);
    configs.insert(
        4,
        WorkerRuntimeConfig::new(Some(DisaggregatedEndpoint {
            bootstrap_host: Some("127.0.0.1".to_string()),
            bootstrap_port: Some(1),
        })),
    );
    assert!(worker_supports_session_rebind(&configs, 1));
    for worker_id in [2, 3, 4, 5] {
        assert!(!worker_supports_session_rebind(&configs, worker_id));
    }
    let loads = vec![load(1, 0, 1, 1), load(2, 0, 2, 2)];
    let marked = mark_supported(&configs, &loads);
    assert_eq!(marked[0], loads[0]);
    assert!(!marked[1].eligible);
    assert_eq!(marked[1].backlog(), 2);
}

#[test]
fn migration_ports_stay_in_range() {
    assert_eq!(migration_peer_port(0), Some(20000));
    assert_eq!(migration_peer_port(7), Some(20007));
    assert_eq!(migration_peer_port(45535), Some(65535));
    assert_eq!(migration_peer_port(45536), None);
    assert_eq!(migration_peer_port(u32::MAX), None);
}

#[test]
fn socket_part_is_cut_out_of_a_tcp_address() {
    assert_eq!(tcp_socket_part("10.0.0.1:8000"), "10.0.0.1:8000");
    assert_eq!(tcp_socket_part("tcp://10.0.0.1:8000"), "10.0.0.1:8000");
    assert_eq!(
        tcp_socket_part("tcp://[fe80::1]:8000/generate/x"),
        "[fe80::1]:8000"
    );
    assert_eq!(tcp_socket_part("10.0.0.1:8000/"), "10.0.0.1:8000");
    assert_eq!(tcp_socket_part("tcp:/10.0.0.1"), "tcp:");
    assert_eq!(tcp_socket_part("/only"), "");
    assert_eq!(tcp_socket_part(""), "");
}

fn instances() -> Vec<WorkerInstance> {
    vec![
        WorkerInstance {
            instance_id: 1,
            transport: TransportType::Tcp("tcp://10.0.0.1:8000/generate".to_string()),
        },
        WorkerInstance {
            instance_id: 2,
            transport: TransportType::Nats("subject".to_string()),
        },
        WorkerInstance {
            instance_id: 1,
            transport: TransportType::Tcp("10.9.9.9:1".to_string()),
        },
    ]
}

#[test]
fn migration_endpoint_comes_from_the_source_worker() {
    let router = KvPushRouter::new(config());
    let source = router
        .resolve_migration_endpoint(WorkerWithDpRank::new(1, 3), &instances())
        .unwrap();
    match &source.host {
        PeerHostSource::Socket(socket) => assert_eq!(socket, "10.0.0.1:8000"),
        _ => panic!("a TCP address is read"),
    }
    let read = Some(PeerHost::V4("10.0.0.1".to_string()));
    assert_eq!(
        source.clone().endpoint(read).as_deref(),
        Some("tcp://10.0.0.1:20003")
    );
    assert!(source.endpoint(None).is_none());
    assert!(router
        .resolve_migration_endpoint(WorkerWithDpRank::new(9, 0), &instances())
        .is_none());
    assert!(router
        .resolve_migration_endpoint(WorkerWithDpRank::new(1, 50000), &instances())
        .is_none());
    assert!(router
        .resolve_migration_endpoint(WorkerWithDpRank::new(2, 0), &instances())
        .is_none());
    let address = PeerAddress {
        host: PeerHostSource::Known(PeerHost::V6("fe80::1".to_string())),
        port: 20001,
    };
    assert_eq!(
        address.endpoint(None).as_deref(),
        Some("tcp://[fe80::1]:20001")
    );
}

#[test]
fn configured_host_serves_where_the_transport_names_none() {
    let mut configured = config();
    configured.peer_host = Some(PeerHost::V4("192.168.0.9".to_string()));
    let router = KvPushRouter::new(configured);
    let hot = WorkerWithDpRank::new(2, 1);
    let source = router
        .migration_source(hot, WorkerWithDpRank::new(1, 0), &instances())
        .unwrap();
    assert_eq!(
        source.endpoint(None).as_deref(),
        Some("tcp://192.168.0.9:20001")
    );
}

#[test]
fn migration_across_workers_needs_a_configured_host() {
    let router = KvPushRouter::new(config());
    let hot = WorkerWithDpRank::new(1, 0);
    assert!(router
        .migration_source(hot, WorkerWithDpRank::new(2, 0), &instances())
        .is_none());
    assert!(router
        .migration_source(hot, WorkerWithDpRank::new(1, 1), &instances())
        .is_some());
}

#[test]
fn directive_names_the_source_rank() {
    let mut request = session_request(None);
    attach_migrate_from(&mut request, "sess", WorkerWithDpRank::new(1, 3), None);
    assert!(request.migrate_from.is_none());
    attach_migrate_from(
        &mut request,
        "sess",
        WorkerWithDpRank::new(1, 3),
        Some("tcp://10.0.0.1:20003".to_string()),
    );
    let directive = request.migrate_from.unwrap();
    assert_eq!(directive.source_endpoint, "tcp://10.0.0.1:20003");
    assert_eq!(directive.source_dp_rank, 3);
    assert_eq!(directive.session_id, "sess");
}

#[test]
fn direct_routing_prefers_the_decode_worker() {
    let worker = |decode, backend| {
        let mut request = session_request(None);
        let hints = request.routing.as_mut().unwrap();
        hints.decode_worker_id = decode;
        hints.backend_instance_id = backend;
        DirectRoutingRouter::<()>::get_worker_id(&request)
    };
    assert_eq!(worker(Some(3), Some(5)).unwrap(), 3);
    assert_eq!(worker(None, Some(5)).unwrap(), 5);
    assert_eq!(
        worker(None, None).unwrap_err().message(),
        "Worker ID required (--direct-route) but none found in request. \
         Expected decode_worker_id or backend_instance_id to be set by external router (e.g., EPP)."
    );
    let mut bare = session_request(None);
    bare.routing = None;
    assert!(DirectRoutingRouter::<()>::get_worker_id(&bare).is_err());
    assert_eq!(DirectRoutingRouter::new(17).inner, 17);
}

#[test]
fn selection_plans_follow_the_binding() {
    let request = session_request(None);
    let bound = token(4, 1, AffinityKind::RouterOnly);
    let plan = select_request(&request, false, Some(bound));
    assert_eq!(
        plan,
        SelectionPlan {
            pinned_worker: Some(WorkerWithDpRank::new(4, 1)),
            is_query_only: false,
            refresh_sticky: true,
            allow_sticky_fallback: true,
        }
    );
    assert!(plan.books());
    let close = session_request(Some(SessionAction::Close));
    assert!(!select_request(&close, false, Some(bound)).allow_sticky_fallback);
    assert!(!select_request(&request, true, None).books());
    assert_eq!(
        select_request_for_final_target(WorkerWithDpRank::new(4, 1)),
        SelectionPlan {
            pinned_worker: Some(WorkerWithDpRank::new(4, 1)),
            is_query_only: false,
            refresh_sticky: false,
            allow_sticky_fallback: false,
        }
    );
}

#[test]
fn failed_pin_falls_back_only_when_its_rank_is_ineligible() {
    let mut revisions = AffinityRevisions::new();
    let mut router = KvPushRouter::new(config());
    let request = session_request(None);
    let bind = session_request(Some(SessionAction::Bind));
    let phase = RequestPhase::Prefill;
    router.sticky.on_routed(&bind, WorkerWithDpRank::new(4, 1), &mut revisions);
    let bound = router.sticky.binding_token_for_phase(&request, phase);
    let plan = select_request(&request, false, bound);

    let recheck = match router.selection_failed(&request, phase, plan) {
        FailedSelection::Recheck(recheck) => recheck,
        FailedSelection::Reject => panic!("the binding is still current"),
    };
    assert!(recheck
        .answered(&mut router, &request, phase, false)
        .is_none());
    assert!(router.sticky.worker_for_phase(&request, phase).is_some());
    let fallback = recheck
        .answered(&mut router, &request, phase, true)
        .unwrap();
    assert_eq!(fallback.pinned_worker, None);
    assert!(router.sticky.worker_for_phase(&request, phase).is_none());
    assert!(recheck
        .answered(&mut router, &request, phase, true)
        .is_none());
    assert_eq!(
        router.selection_failed(&request, phase, fallback),
        FailedSelection::Reject
    );

    router.sticky.on_routed(&bind, WorkerWithDpRank::new(5, 0), &mut revisions);
    assert_eq!(
        router.selection_failed(&request, phase, plan),
        FailedSelection::Reject,
        "the session is bound elsewhere by now"
    );
}

#[test]
fn binding_of_an_ineligible_rank_goes_unless_an_action_needs_it() {
    let mut revisions = AffinityRevisions::new();
    let mut router = KvPushRouter::new(config());
    let request = session_request(None);
    let bind = session_request(Some(SessionAction::Bind));
    let close = session_request(Some(SessionAction::Close));
    let phase = RequestPhase::Prefill;
    router.sticky.on_routed(&bind, WorkerWithDpRank::new(4, 1), &mut revisions);
    let bound = router
        .sticky
        .binding_token_for_phase(&request, phase)
        .unwrap();
    assert_eq!(
        router.keep_eligible_binding_for_phase(&request, phase, false, bound, false),
        Some(bound)
    );
    assert_eq!(
        router.keep_eligible_binding_for_phase(&close, phase, false, bound, true),
        Some(bound)
    );
    assert!(router.sticky.worker_for_phase(&request, phase).is_some());
    assert_eq!(
        router.keep_eligible_binding_for_phase(&request, phase, false, bound, true),
        None
    );
    assert!(router.sticky.worker_for_phase(&request, phase).is_none());
}

#[test]
fn booked_turn_extends_affinity_and_a_query_does_not() {
    let mut revisions = AffinityRevisions::new();
    let mut router = KvPushRouter::new(config());
    let request = session_request(None);
    let bind = session_request(Some(SessionAction::Bind));
    let phase = RequestPhase::Prefill;
    let worker = WorkerWithDpRank::new(4, 1);
    router.sticky.on_routed_at(&bind, worker, at(100), &mut revisions);
    let bound = router
        .sticky
        .binding_token_for_phase_at(&request, phase, at(100));
    let query = select_request(&request, true, bound);
    router.selection_succeeded_at(&request, phase, query, at(200));
    let final_target = select_request_for_final_target(worker);
    router.selection_succeeded_at(&request, phase, final_target, at(200));
    assert_eq!(
        router
            .sticky
            .worker_for_phase_at(&request, phase, at(399)),
        Some(worker)
    );
    let plan = select_request(&request, false, bound);
    router.selection_succeeded_at(&request, phase, plan, at(399));
    assert_eq!(
        router
            .sticky
            .worker_for_phase_at(&request, phase, at(698)),
        Some(worker)
    );
    assert_eq!(
        router
            .sticky
            .worker_for_phase_at(&request, phase, at(699)),
        None
    );
}

#[test]
fn matching_final_target_is_accepted() {
    assert!(
        reject_unexpected_final_target("r", &selection(), WorkerWithDpRank::new(4, 1)).is_ok()
    );
    assert!(
        reject_unexpected_final_target("r", &selection(), WorkerWithDpRank::new(4, 0)).is_err()
    );
}

#[test]
fn routing_record_hands_over_the_hashes() {
    let mut request = session_request(None);
    request.routing.as_mut().unwrap().lora_name = Some("adapter".to_string());
    let mut hashed = selection();
    hashed.routing_hashes = Some(vec![1, 2]);
    assert!(track_selection(&request, &mut hashed, false).is_none());
    assert!(hashed.routing_hashes.is_some());
    match track_selection(&request, &mut hashed, true) {
        Some(RoutingRecord::Hashes { hashes, worker }) => {
            assert_eq!(hashes, vec![1, 2]);
            assert_eq!(worker, WorkerWithDpRank::new(4, 1));
        }
        _ => panic!("hashes are recorded where there are some"),
    }
    assert!(hashed.routing_hashes.is_none());
    match track_selection(&request, &mut hashed, true) {
        Some(RoutingRecord::Tokens { lora_name, .. }) => {
            assert_eq!(lora_name.as_deref(), Some("adapter"));
        }
        _ => panic!("tokens are recorded otherwise"),
    }
}

#[test]
fn input_blocks_round_up() {
    assert_eq!(input_blocks(0, 16), 0);
    assert_eq!(input_blocks(1, 16), 1);
    assert_eq!(input_blocks(16, 16), 1);
    assert_eq!(input_blocks(17, 16), 2);
    assert_eq!(input_blocks(usize::MAX, 1), usize::MAX);
    let mut request = session_request(None);
    assert!(tracker_record(&request, &selection(), 3, 16).is_none());
    assert!(tracker_record(&request, &selection(), 3, 0).is_none());
    request.tracker_phase = Some(RequestPhase::Decode);
    let told = tracker_record(&request, &selection(), 33, 16).unwrap();
    assert_eq!(told.input_blocks, 3);
    assert_eq!(told.input_tokens, 33);
    assert_eq!(told.cached_tokens, 12);
    assert_eq!(told.worker, WorkerWithDpRank::new(4, 1));
    assert_eq!(request.phase(), RequestPhase::Decode);
}

#[test]
fn query_is_answered_with_workers_and_tokens() {
    let mut request = session_request(None);
    assert!(!request.is_query_only());
    assert_eq!(request.phase(), RequestPhase::Aggregated);
    request.query_instance_id = Some(String::new());
    assert!(request.is_query_only());
    let workers = WorkerIdInfo {
        prefill_worker_id: Some(4),
        prefill_dp_rank: Some(1),
        decode_worker_id: None,
        decode_dp_rank: None,
    };
    let frames = query_response(&request, &selection(), Some(workers));
    assert_eq!(frames.len(), 3);
    assert!(frames.iter().all(|frame| !frame.is_error && frame.error.is_none()));

    assert_eq!(frames[0].event.as_deref(), Some("worker_instance_id"));
    assert!(matches!(
        frames[0].annotation,
        Some(AnnotationValue::WorkerId(4))
    ));
    assert_eq!(frames[1].event.as_deref(), Some("token_data"));
    match &frames[1].annotation {
        Some(AnnotationValue::Tokens(tokens)) => assert_eq!(tokens, &vec![1, 2, 3]),
        _ => panic!("the tokens are annotated"),
    }
    assert!(frames[0].data.is_none() && frames[1].data.is_none());

    assert!(frames[2].event.is_none());
    let output = frames[2].data.as_ref().unwrap();
    assert!(output.finish_reason.is_none());
    let data = output.routing_data.as_ref().unwrap();
    assert_eq!(data.worker_id, Some(workers));
    assert_eq!(data.token_ids, Some(vec![1, 2, 3]));

    let untracked = query_response(&request, &selection(), None);
    assert!(matches!(
        untracked[0].annotation,
        Some(AnnotationValue::WorkerId(4))
    ));
}

#[test]
fn only_a_query_is_answered_without_dispatch() {
    let mut request = session_request(None);
    assert_eq!(after_selection(&request), GenerateStep::Dispatch);
    request.query_instance_id = Some(String::new());
    assert_eq!(after_selection(&request), GenerateStep::Answer);
    assert!(Dispatch::prefill(None, None).exact);
    assert!(!Dispatch::plain().exact);
}

#[test]
fn query_changes_nothing_on_its_way() {
    let mut revisions = AffinityRevisions::new();
    let mut router = KvPushRouter::new(config());
    let request = session_request(None);
    let bind = session_request(Some(SessionAction::Bind));
    let phase = RequestPhase::Prefill;
    let worker = WorkerWithDpRank::new(4, 1);
    router.sticky.on_routed_at(&bind, worker, at(100), &mut revisions);
    let bound = router
        .resolve_binding_for_phase_at(&request, phase, true, at(200))
        .unwrap();
    assert_eq!(bound.binding.worker, worker);
    assert_eq!(
        router.keep_eligible_binding_for_phase(&request, phase, true, bound, true),
        None
    );
    let plan = select_request(&request, true, Some(bound));
    router.selection_succeeded_at(&request, phase, plan, at(200));
    let recheck = match router.selection_failed_at(&request, phase, plan, at(200)) {
        FailedSelection::Recheck(recheck) => recheck,
        FailedSelection::Reject => panic!("the binding is still current"),
    };
    let fallback = recheck
        .answered(&mut router, &request, phase, true)
        .unwrap();
    assert_eq!(fallback.pinned_worker, None);
    assert!(fallback.is_query_only);
    assert_eq!(
        router
            .sticky
            .worker_for_phase_at(&request, phase, at(399)),
        Some(worker)
    );
    assert_eq!(
        router.resolve_binding_for_phase_at(&request, phase, true, at(400)),
        None
    );
    assert!(
        router
            .sticky
            .holds_token_for_phase(&request, phase, bound),
        "a query leaves an expired binding for the sweep"
    );
    assert_eq!(
        router.resolve_binding_for_phase_at(&request, phase, false, at(400)),
        None
    );
    assert!(!router
        .sticky
        .holds_token_for_phase(&request, phase, bound));
}

#[test]
fn rank_is_named_in_the_request_that_is_sent() {
    let mut request = session_request(None);
    request.routing.as_mut().unwrap().decode_worker_id = Some(8);
    pin_dp_rank(&mut request, 2);
    let hints = request.routing.unwrap();
    assert_eq!(hints.dp_rank, Some(2));
    assert_eq!(hints.decode_worker_id, Some(8));
    assert!(hints.session_control.is_some());
    let mut bare = session_request(None);
    bare.routing = None;
    pin_dp_rank(&mut bare, 3);
    let hints = bare.routing.unwrap();
    assert_eq!(hints.dp_rank, Some(3));
    assert!(hints.session_control.is_none());
}
