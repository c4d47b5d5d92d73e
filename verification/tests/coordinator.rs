use kv_router::protocols::{
    PreprocessedRequest, RequestPhase, RoutingHints, SessionAction, SessionControl,
    WorkerWithDpRank,
};
use kv_router::sticky::coordinator::{
    binding_session_id_for_phase, on_close_probed, sticky_allowed_for_phase,
    sticky_session_id_for_phase, turn_session_id_for_phase, RoutedStep, SessionRoutingResult,
    StickySessionCoordinator, TurnAcquisition,
};
use kv_router::sticky::revisions::AffinityRevisions;
use kv_router::sticky::router::AffinityKind;
use kv_router::time::{Duration, Instant};

fn at(seconds: u128) -> Instant {
    Instant {
        nanos: seconds * 1_000_000_000,
    }
}

fn session_control() -> SessionControl {
    SessionControl {
        session_id: "sess-1".to_string(),
        action: None,
        timeout: 300,
    }
}

fn request_with(routing: Option<RoutingHints>) -> PreprocessedRequest {
    PreprocessedRequest {
        token_ids: vec![1],
        routing,
        tracker_phase: None,
        query_instance_id: None,
        migrate_from: None,
    }
}

fn session_request(session_id: &str, action: Option<SessionAction>) -> PreprocessedRequest {
    request_with(Some(RoutingHints {
        session_control: Some(SessionControl {
            session_id: session_id.to_string(),
            action,
            timeout: 300,
        }),
        ..Default::default()
    }))
}

fn done(step: RoutedStep) -> SessionRoutingResult {
    match step {
        RoutedStep::Done(result) => result,
        _ => panic!("the routing is not done"),
    }
}

#[test]
fn sticky_is_noop_without_session_control() {
    let routing = RoutingHints::default();
    assert!(!sticky_allowed_for_phase(
        RequestPhase::Aggregated,
        Some(&routing)
    ));
}

#[test]
fn sticky_allowed_when_only_session_control_is_present() {
    let routing = RoutingHints {
        session_control: Some(session_control()),
        ..Default::default()
    };
    assert!(sticky_allowed_for_phase(
        RequestPhase::Aggregated,
        Some(&routing)
    ));
    assert!(sticky_allowed_for_phase(
        RequestPhase::Prefill,
        Some(&routing)
    ));
    assert!(sticky_allowed_for_phase(
        RequestPhase::Decode,
        Some(&routing)
    ));
}

#[test]
fn sticky_skips_phase_specific_explicit_pins() {
    let prefill = RoutingHints {
        session_control: Some(session_control()),
        prefill_worker_id: Some(1),
        ..Default::default()
    };
    assert!(!sticky_allowed_for_phase(
        RequestPhase::Prefill,
        Some(&prefill)
    ));

    let prefill_rank = RoutingHints {
        session_control: Some(session_control()),
        prefill_dp_rank: Some(2),
        ..Default::default()
    };
    assert!(!sticky_allowed_for_phase(
        RequestPhase::Prefill,
        Some(&prefill_rank)
    ));

    let decode = RoutingHints {
        session_control: Some(session_control()),
        decode_worker_id: Some(3),
        ..Default::default()
    };
    assert!(!sticky_allowed_for_phase(
        RequestPhase::Decode,
        Some(&decode)
    ));

    let decode_rank = RoutingHints {
        session_control: Some(session_control()),
        dp_rank: Some(4),
        ..Default::default()
    };
    assert!(!sticky_allowed_for_phase(
        RequestPhase::Decode,
        Some(&decode_rank)
    ));

    let aggregated = RoutingHints {
        session_control: Some(session_control()),
        backend_instance_id: Some(5),
        ..Default::default()
    };
    assert!(!sticky_allowed_for_phase(
        RequestPhase::Aggregated,
        Some(&aggregated)
    ));
}

#[test]
fn turn_serialization_keeps_session_id_with_explicit_pins() {
    let prefill = RoutingHints {
        session_control: Some(session_control()),
        prefill_worker_id: Some(1),
        prefill_dp_rank: Some(2),
        ..Default::default()
    };
    let backend = RoutingHints {
        session_control: Some(session_control()),
        backend_instance_id: Some(5),
        dp_rank: Some(3),
        ..Default::default()
    };

    for (phase, routing) in [
        (RequestPhase::Prefill, prefill),
        (RequestPhase::Prefill, backend.clone()),
        (RequestPhase::Aggregated, backend),
    ] {
        let request = request_with(Some(routing));
        assert_eq!(turn_session_id_for_phase(&request, phase), Some("sess-1"));
    }
}

#[test]
fn pins_of_another_phase_do_not_disable_sticky_routing() {
    let routing = RoutingHints {
        session_control: Some(session_control()),
        prefill_worker_id: Some(1),
        prefill_dp_rank: Some(2),
        ..Default::default()
    };
    assert!(sticky_allowed_for_phase(
        RequestPhase::Decode,
        Some(&routing)
    ));
    assert!(sticky_allowed_for_phase(
        RequestPhase::Aggregated,
        Some(&routing)
    ));
    let routing = RoutingHints {
        session_control: Some(session_control()),
        decode_worker_id: Some(1),
        ..Default::default()
    };
    assert!(sticky_allowed_for_phase(
        RequestPhase::Aggregated,
        Some(&routing)
    ));
    let routing = RoutingHints {
        session_control: Some(session_control()),
        dp_rank: Some(1),
        ..Default::default()
    };
    assert!(sticky_allowed_for_phase(
        RequestPhase::Prefill,
        Some(&routing)
    ));
    assert!(!sticky_allowed_for_phase(RequestPhase::Prefill, None));
}

#[test]
fn lifecycle_action_reaches_its_session_despite_pins() {
    let mut request = session_request("sess-1", Some(SessionAction::Close));
    request.routing.as_mut().unwrap().prefill_worker_id = Some(9);
    let phase = RequestPhase::Prefill;
    assert_eq!(sticky_session_id_for_phase(&request, phase), None);
    assert_eq!(
        binding_session_id_for_phase(&request, phase),
        Some("sess-1")
    );
    request
        .routing
        .as_mut()
        .unwrap()
        .session_control
        .as_mut()
        .unwrap()
        .action = None;
    assert_eq!(binding_session_id_for_phase(&request, phase), None);
    let bare = request_with(None);
    assert_eq!(sticky_session_id_for_phase(&bare, phase), None);
    assert_eq!(turn_session_id_for_phase(&bare, phase), None);
    assert_eq!(binding_session_id_for_phase(&bare, phase), None);
}

#[test]
fn turn_has_one_owner_until_it_is_released() {
    let mut sticky = StickySessionCoordinator::new();
    let request = session_request("sess-1", None);
    let phase = RequestPhase::Prefill;
    let guard = match sticky.acquire_turn_for_phase(&request, phase, "first") {
        TurnAcquisition::Owner(guard) => guard,
        _ => panic!("a free turn must be given out"),
    };
    match sticky.acquire_turn_for_phase(&request, phase, "second") {
        TurnAcquisition::Overlap { current_owner } => assert_eq!(current_owner, "first"),
        _ => panic!("a turn has one owner"),
    }
    let other = session_request("sess-2", None);
    let other_guard = match sticky.acquire_turn_for_phase(&other, phase, "second") {
        TurnAcquisition::Owner(guard) => guard,
        _ => panic!("sessions have turns of their own"),
    };
    guard.release(&mut sticky);
    other_guard.release(&mut sticky);
    assert!(matches!(
        sticky.acquire_turn_for_phase(&request, phase, "second"),
        TurnAcquisition::Owner(_)
    ));
    assert!(matches!(
        sticky.acquire_turn_for_phase(&request_with(None), phase, "third"),
        TurnAcquisition::NotApplicable
    ));
}

#[test]
fn routed_bind_is_undone_by_its_rollback() {
    let mut revisions = AffinityRevisions::new();
    let mut sticky = StickySessionCoordinator::new();
    let worker = WorkerWithDpRank::new(42, 1);
    let bind = session_request("sess-1", Some(SessionAction::Bind));
    let turn = session_request("sess-1", None);
    let result = done(sticky.on_routed_at(&bind, worker, at(100), &mut revisions));
    assert!(result.deferred_close.is_none());
    assert_eq!(
        sticky.worker_for_phase_at(&turn, RequestPhase::Aggregated, at(399)),
        Some(worker)
    );
    assert!(sticky.rollback_routed(result.rollback.unwrap()).is_none());
    assert_eq!(
        sticky.worker_for_phase_at(&turn, RequestPhase::Aggregated, at(399)),
        None
    );
}

#[test]
fn rollback_of_a_routed_bind_spares_a_newer_binding() {
    let mut revisions = AffinityRevisions::new();
    let mut sticky = StickySessionCoordinator::new();
    let bind = session_request("sess-1", Some(SessionAction::Bind));
    let turn = session_request("sess-1", None);
    let first = done(sticky.on_routed(&bind, WorkerWithDpRank::new(1, 0), &mut revisions));
    done(sticky.on_routed(&bind, WorkerWithDpRank::new(2, 0), &mut revisions));
    sticky.rollback_routed(first.rollback.unwrap());
    assert_eq!(
        sticky.worker_for_phase(&turn, RequestPhase::Decode),
        Some(WorkerWithDpRank::new(2, 0))
    );
}

#[test]
fn session_is_bound_only_once_the_worker_has_opened_it() {
    let mut revisions = AffinityRevisions::new();
    let mut sticky = StickySessionCoordinator::new();
    let worker = WorkerWithDpRank::new(42, 1);
    let open_request = session_request("sess-1", Some(SessionAction::Open));
    let turn = session_request("sess-1", None);

    let open = match sticky.on_routed(&open_request, worker, &mut revisions) {
        RoutedStep::Open(open) => open,
        _ => panic!("an open waits for the worker"),
    };
    assert_eq!(open.session_id, "sess-1");
    assert_eq!(open.timeout, 300);
    assert_eq!(open.worker, worker);
    let refused = done(sticky.on_session_opened(open, false, &mut revisions));
    assert!(refused.rollback.is_none());
    assert_eq!(
        sticky.worker_for_phase(&turn, RequestPhase::Aggregated),
        None
    );

    let open = match sticky.on_routed(&open_request, worker, &mut revisions) {
        RoutedStep::Open(open) => open,
        _ => panic!("an open waits for the worker"),
    };
    let probe = match sticky.on_session_opened(open, true, &mut revisions) {
        RoutedStep::Probe(probe) => probe,
        _ => panic!("an opened session may have to be closed"),
    };
    assert_eq!(
        sticky.worker_for_phase(&turn, RequestPhase::Aggregated),
        Some(worker)
    );
    assert_eq!(
        sticky
            .binding_token_for_phase(&turn, RequestPhase::Aggregated)
            .unwrap()
            .binding
            .kind,
        AffinityKind::EngineBacked
    );
    let result = on_close_probed(probe, true);
    assert!(result.deferred_close.is_none());
    let close = sticky.rollback_routed(result.rollback.unwrap()).unwrap();
    assert_eq!((close.session_id.as_str(), close.worker_id), ("sess-1", 42));
    assert_eq!(
        sticky.worker_for_phase(&turn, RequestPhase::Aggregated),
        None
    );
}

#[test]
fn close_goes_to_the_worker_that_holds_the_session() {
    let mut revisions = AffinityRevisions::new();
    let mut sticky = StickySessionCoordinator::new();
    let close = session_request("sess-1", Some(SessionAction::Close));
    let elsewhere = WorkerWithDpRank::new(7, 0);

    // Nothing is known of the session: the worker of the request is asked.
    let probe = match sticky.on_routed(&close, elsewhere, &mut revisions) {
        RoutedStep::Probe(probe) => probe,
        _ => panic!("an unknown session is closed on the worker of the request"),
    };
    assert_eq!(probe.close.worker_id, 7);
    let result = on_close_probed(probe, true);
    assert_eq!(result.deferred_close.unwrap().worker_id, 7);
    assert!(result.rollback.is_none());

    // The engine holds the session.
    let open_request = session_request("sess-1", Some(SessionAction::Open));
    let open = match sticky.on_routed(&open_request, WorkerWithDpRank::new(42, 1), &mut revisions) {
        RoutedStep::Open(open) => open,
        _ => panic!("an open waits for the worker"),
    };
    sticky.on_session_opened(open, true, &mut revisions);
    let probe = match sticky.on_routed(&close, elsewhere, &mut revisions) {
        RoutedStep::Probe(probe) => probe,
        _ => panic!("an engine-backed session is closed on its worker"),
    };
    assert_eq!(probe.close.worker_id, 42);
    assert!(on_close_probed(probe, false).deferred_close.is_none());

    // Only the router knows the session.
    let bind = session_request("sess-1", Some(SessionAction::Bind));
    done(sticky.on_routed(&bind, WorkerWithDpRank::new(42, 1), &mut revisions));
    let result = done(sticky.on_routed(&close, elsewhere, &mut revisions));
    assert!(result.deferred_close.is_none());
    assert!(result.rollback.is_none());
    assert_eq!(
        sticky.worker_for_phase(&session_request("sess-1", None), RequestPhase::Decode),
        None
    );
}

#[test]
fn turn_without_an_action_extends_affinity_and_one_with_an_action_does_not() {
    let mut revisions = AffinityRevisions::new();
    let mut sticky = StickySessionCoordinator::new();
    let worker = WorkerWithDpRank::new(42, 1);
    let bind = session_request("sess-1", Some(SessionAction::Bind));
    let turn = session_request("sess-1", None);
    let phase = RequestPhase::Prefill;
    assert!(matches!(
        sticky.on_routed_at(&turn, worker, at(100), &mut revisions),
        RoutedStep::Done(SessionRoutingResult {
            deferred_close: None,
            rollback: None
        })
    ));
    done(sticky.on_routed_at(&bind, worker, at(100), &mut revisions));
    sticky.refresh_worker_for_phase_at(&bind, phase, at(300));
    assert_eq!(
        sticky.worker_for_phase_at(&turn, phase, at(399)),
        Some(worker)
    );
    sticky.refresh_worker_for_phase_at(&turn, phase, at(300));
    assert_eq!(
        sticky.worker_for_phase_at(&turn, phase, at(599)),
        Some(worker)
    );
    assert_eq!(sticky.worker_for_phase_at(&turn, phase, at(600)), None);
}

#[test]
fn expired_engine_session_is_handed_over_for_closing() {
    let mut revisions = AffinityRevisions::new();
    let mut sticky = StickySessionCoordinator::new();
    let open_request = session_request("sess-1", Some(SessionAction::Open));
    let open = match sticky.on_routed_at(&open_request, WorkerWithDpRank::new(42, 1), at(100), &mut revisions) {
        RoutedStep::Open(open) => open,
        _ => panic!("an open waits for the worker"),
    };
    sticky.on_session_opened_at(open, true, at(100), &mut revisions);
    sticky.reap_expired_at(at(399));
    assert!(sticky.take_expired().is_empty());
    sticky.reap_expired_at(at(400));
    assert_eq!(sticky.take_expired(), vec![("sess-1".to_string(), 42)]);
}

#[test]
fn guard_commits_once_and_counts() {
    let mut revisions = AffinityRevisions::new();
    let mut sticky = StickySessionCoordinator::new();
    let bind = session_request("sess-1", Some(SessionAction::Bind));
    let turn = session_request("sess-1", None);
    let phase = RequestPhase::Prefill;
    done(sticky.on_routed(&bind, WorkerWithDpRank::new(1, 0), &mut revisions));
    let expected = sticky.rebind_token_for_phase(&turn, phase).unwrap();
    let cold = WorkerWithDpRank::new(2, 0);
    let guard = sticky
        .begin_rebind("sess-1", expected, cold, Duration::from_secs(300), &mut revisions)
        .unwrap();
    assert!(sticky.rebind_token_for_phase(&turn, phase).is_none());
    assert!(guard.is_countable(&sticky));
    assert!(guard.commit(&mut sticky));
    assert_eq!(sticky.rebind_count("sess-1"), 1);
    assert!(sticky.in_rebind_cooldown("sess-1", Duration::from_secs(5)));
    assert_eq!(sticky.worker_for_phase(&turn, phase), Some(cold));
    assert_eq!(sticky.session_id_for_phase(&turn, phase), Some("sess-1"));

    let expected = sticky.rebind_token_for_phase(&turn, phase).unwrap();
    let guard = sticky
        .begin_rebind(
            "sess-1",
            expected,
            WorkerWithDpRank::new(3, 0),
            Duration::from_secs(300),
            &mut revisions,
        )
        .unwrap();
    guard.abandon(&mut sticky);
    assert_eq!(sticky.rebind_count("sess-1"), 1);
    assert_eq!(sticky.worker_for_phase(&turn, phase), Some(cold));
    assert!(sticky.unbind_if_token_for_phase(&turn, phase, expected));
    assert_eq!(sticky.worker_for_phase(&turn, phase), None);
}
