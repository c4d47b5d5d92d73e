use std::collections::HashMap;

use kv_router::protocols::{
    Annotated, FinishReason, LLMEngineOutput, PreprocessedRequest, RequestPhase, RoutingHints,
    SessionAction, SessionControl, WorkerWithDpRank,
};
use kv_router::push_router::config::RebindConfig;
use kv_router::push_router::decision::{
    DisaggregatedEndpoint, PotentialLoad, RebindDecision, WorkerRuntimeConfig,
    SESSION_REBIND_CAPABILITY_KEY,
};
use kv_router::push_router::dispatch::{Dispatch, StreamStep};
use kv_router::push_router::error::RouteError;
use kv_router::push_router::gate::{RebindResponseGate, RebindStreamAction};
use kv_router::push_router::prefill::{PrefillSelection, PrefillStep};
use kv_router::push_router::router::{KvPushRouter, RebindTransition};
use kv_router::push_router::selection::{
    select_request, track_selection, tracker_record, RoutingRecord, SelectionPlan, WorkerSelection,
};
use kv_router::sticky::coordinator::{RoutedStep, SessionRoutingResult, SessionTurnGuard};
use kv_router::sticky::revisions::AffinityRevisions;
use kv_router::sticky::router::AffinityBindingToken;
use kv_router::time::Duration;

fn session_request(
    session_id: &str,
    action: Option<SessionAction>,
    tokens: usize,
) -> PreprocessedRequest {
    PreprocessedRequest {
        token_ids: vec![7; tokens],
        routing: Some(RoutingHints {
            session_control: Some(SessionControl {
                session_id: session_id.to_string(),
                action,
                timeout: 300,
            }),
            ..Default::default()
        }),
        tracker_phase: None,
        query_instance_id: None,
        migrate_from: None,
    }
}

fn object(members: Vec<(&str, serde_json::Value)>) -> serde_json::Value {
    let mut map = serde_json::Map::new();
    for (key, value) in members {
        map.insert(key.to_string(), value);
    }
    serde_json::Value::Object(map)
}

/// Two ranks on each worker, with the prefill tokens that are booked on them.
struct Scheduler {
    ranks: Vec<WorkerWithDpRank>,
    configs: HashMap<u64, WorkerRuntimeConfig>,
    bookings: HashMap<String, (WorkerWithDpRank, usize)>,
    allowed: Option<Vec<u64>>,
}

impl Scheduler {
    fn new(worker_ids: &[u64], supports_rebind: bool) -> Self {
        let mut ranks = Vec::new();
        let mut configs = HashMap::new();
        for worker_id in worker_ids {
            ranks.push(WorkerWithDpRank::new(*worker_id, 0));
            ranks.push(WorkerWithDpRank::new(*worker_id, 1));
            let config = if supports_rebind {
                let mut config = WorkerRuntimeConfig::new(Some(DisaggregatedEndpoint {
                    bootstrap_host: Some("127.0.0.1".to_string()),
                    bootstrap_port: Some(18000),
                }));
                config.set_runtime_data(
                    SESSION_REBIND_CAPABILITY_KEY.to_string(),
                    serde_json::Value::Bool(true),
                );
                config
            } else {
                WorkerRuntimeConfig::new(None)
            };
            configs.insert(*worker_id, config);
        }
        Scheduler {
            ranks,
            configs,
            bookings: HashMap::new(),
            allowed: None,
        }
    }

    fn add_request(&mut self, id: &str, tokens: usize, rank: WorkerWithDpRank) {
        self.bookings.insert(id.to_string(), (rank, tokens));
    }

    fn free(&mut self, id: &str) -> bool {
        self.bookings.remove(id).is_some()
    }

    fn booked(&self, rank: WorkerWithDpRank) -> (usize, usize) {
        let on_rank: Vec<usize> = self
            .bookings
            .values()
            .filter(|(booked, _)| *booked == rank)
            .map(|(_, tokens)| *tokens)
            .collect();
        (on_rank.iter().sum(), on_rank.len())
    }

    fn eligible(&self, rank: WorkerWithDpRank) -> bool {
        match &self.allowed {
            Some(allowed) => allowed.contains(&rank.worker_id),
            None => true,
        }
    }

    fn potential_loads(&self, tokens: usize) -> Vec<PotentialLoad> {
        self.ranks
            .iter()
            .map(|rank| PotentialLoad {
                worker_id: rank.worker_id,
                dp_rank: rank.dp_rank,
                potential_prefill_tokens: self.booked(*rank).0 + tokens,
                request_prefill_delta: tokens,
                eligible: self.eligible(*rank),
            })
            .collect()
    }

    fn select(&mut self, id: &str, tokens: usize, plan: &SelectionPlan) -> WorkerSelection {
        let rank = match plan.pinned_worker {
            Some(rank) => rank,
            None => *self
                .ranks
                .iter()
                .filter(|rank| self.eligible(**rank))
                .min_by_key(|rank| self.booked(**rank).0)
                .unwrap(),
        };
        self.add_request(id, tokens, rank);
        WorkerSelection {
            instance_id: rank.worker_id,
            dp_rank: rank.dp_rank,
            scheduler_tracked: true,
            cached_tokens: 0,
            routing_hashes: None,
        }
    }
}

fn test_router() -> KvPushRouter {
    KvPushRouter::new(RebindConfig {
        hysteresis_tokens: 256,
        min_new_tokens: 0,
        max_per_session: 100,
        peer_host: None,
    })
}

fn bind(router: &mut KvPushRouter, revisions: &mut AffinityRevisions, session_id: &str, worker: WorkerWithDpRank) {
    let request = session_request(session_id, Some(SessionAction::Bind), 1);
    match router.sticky.on_routed(&request, worker, revisions) {
        RoutedStep::Done(result) => assert!(result.rollback.is_some()),
        _ => panic!("a bind is done at once"),
    }
}

fn select_as_usual(
    router: &mut KvPushRouter,
    scheduler: &mut Scheduler,
    request: &PreprocessedRequest,
    id: &str,
    turn: Option<SessionTurnGuard>,
) -> PrefillSelection {
    let phase = RequestPhase::Prefill;
    let binding = router.sticky.binding_token_for_phase(request, phase);
    let mut plan = select_request(request, false, binding);
    if plan.pinned_worker.is_none() {
        let hints = request.routing.as_ref().unwrap();
        if let (Some(worker_id), Some(dp_rank)) = (hints.prefill_worker_id, hints.prefill_dp_rank) {
            plan.pinned_worker = Some(WorkerWithDpRank::new(worker_id, dp_rank));
        }
    }
    let selection = scheduler.select(id, request.token_ids.len(), &plan);
    router.selection_succeeded(request, phase, plan);
    PrefillSelection::usual(selection, turn)
}

fn select_prefill_request(
    router: &mut KvPushRouter,
    revisions: &mut AffinityRevisions,
    scheduler: &mut Scheduler,
    request: &PreprocessedRequest,
    id: &str,
) -> Result<PrefillSelection, RouteError> {
    let turn = match router.start_prefill(request, id)? {
        PrefillStep::Resolve(turn) => turn,
        PrefillStep::Select(turn) => {
            return Ok(select_as_usual(router, scheduler, request, id, turn));
        }
        _ => panic!("a prefill starts with its session"),
    };
    let binding = router
        .sticky
        .binding_token_for_phase(request, RequestPhase::Prefill);
    let (turn, expected) =
        match router.binding_resolved(turn, request, binding, &scheduler.configs) {
            PrefillStep::Loads {
                session_turn,
                expected,
            } => (session_turn, expected),
            PrefillStep::Select(turn) => {
                return Ok(select_as_usual(router, scheduler, request, id, turn));
            }
            _ => panic!("loads come next"),
        };
    let loads = scheduler.potential_loads(request.token_ids.len());
    match router.loads_known(turn, request, expected, &scheduler.configs, Some(&loads)) {
        PrefillStep::SelectFinal {
            session_turn,
            decision,
            plan,
        } => {
            let selection = scheduler.select(id, request.token_ids.len(), &plan);
            router
                .start_shadow(id, session_turn, &decision, selection, revisions)
                .map_err(|refused| {
                    if refused.free_booking {
                        scheduler.free(id);
                    }
                    refused.error
                })
        }
        PrefillStep::Select(turn) => Ok(select_as_usual(router, scheduler, request, id, turn)),
        _ => panic!("a selection comes next"),
    }
}

fn make_rebind_response_gate(
    router: &mut KvPushRouter,
    revisions: &mut AffinityRevisions,
    session_id: &str,
    hot: WorkerWithDpRank,
    cold: WorkerWithDpRank,
) -> RebindResponseGate {
    bind(router, revisions, session_id, hot);
    let request = session_request(session_id, None, 1);
    let expected = router
        .sticky
        .rebind_token_for_phase(&request, RequestPhase::Prefill)
        .unwrap();
    let pending = router
        .sticky
        .begin_rebind(session_id, expected, cold, Duration::from_secs(300), revisions)
        .unwrap();
    RebindResponseGate::new(Some(pending))
}

fn visible_affinity(router: &mut KvPushRouter, session_id: &str) -> Option<WorkerWithDpRank> {
    router
        .sticky
        .worker_for_phase(&session_request(session_id, None, 1), RequestPhase::Prefill)
}

fn prefill_bootstrap_output() -> Annotated {
    Annotated::from_data(LLMEngineOutput {
        disaggregated_params: Some(object(vec![
            ("bootstrap_host", serde_json::Value::from("127.0.0.1")),
            ("bootstrap_port", serde_json::Value::from(1234)),
            ("bootstrap_room", serde_json::Value::from(5678)),
        ])),
        ..Default::default()
    })
}

fn prefill_complete_marker() -> Annotated {
    Annotated::from_data(LLMEngineOutput {
        extra_args: Some(object(vec![(
            "dynamo_prefill_complete",
            serde_json::Value::Bool(true),
        )])),
        ..Default::default()
    })
}

fn hot_and_cold() -> (WorkerWithDpRank, WorkerWithDpRank) {
    (WorkerWithDpRank::new(42, 0), WorkerWithDpRank::new(42, 1))
}

#[test]
fn rebind_response_gate_commits_only_after_bootstrap_and_completion_marker() {
    let mut revisions = AffinityRevisions::new();
    let mut router = test_router();
    let (hot, cold) = hot_and_cold();
    let session_id = "response-gate-success";
    let mut gate = make_rebind_response_gate(&mut router, &mut revisions, session_id, hot, cold);

    assert_eq!(
        gate.observe(&mut router, &prefill_bootstrap_output()),
        RebindStreamAction::Forward
    );
    assert_eq!(visible_affinity(&mut router, session_id), Some(hot));

    assert_eq!(
        gate.observe(&mut router, &prefill_complete_marker()),
        RebindStreamAction::Committed
    );
    assert_eq!(visible_affinity(&mut router, session_id), Some(cold));
    assert!(gate.finish(&mut router).is_none());
    assert_eq!(
        router.take_transitions(),
        vec![RebindTransition::CommitPrefillCompleteAck]
    );
}

#[test]
fn rebind_response_gate_rolls_back_on_first_annotated_error() {
    let mut revisions = AffinityRevisions::new();
    let mut router = test_router();
    let (hot, cold) = hot_and_cold();
    let session_id = "response-gate-first-error";
    let mut gate = make_rebind_response_gate(&mut router, &mut revisions, session_id, hot, cold);

    assert_eq!(
        gate.observe(
            &mut router,
            &Annotated::from_error("prefill failed".to_string())
        ),
        RebindStreamAction::RolledBack("annotated_error")
    );
    assert_eq!(visible_affinity(&mut router, session_id), Some(hot));
    assert!(gate.finish(&mut router).is_none());
    assert_eq!(
        router.take_transitions(),
        vec![RebindTransition::AbortAnnotatedError]
    );
}

#[test]
fn rebind_response_gate_rejects_empty_stream() {
    let mut revisions = AffinityRevisions::new();
    let mut router = test_router();
    let (hot, cold) = hot_and_cold();
    let session_id = "response-gate-empty";
    let mut gate = make_rebind_response_gate(&mut router, &mut revisions, session_id, hot, cold);

    let error = gate
        .finish(&mut router)
        .expect("empty stream must fail closed");
    assert!(error.contains("before bootstrap data"));
    assert_eq!(visible_affinity(&mut router, session_id), Some(hot));
    assert_eq!(
        router.take_transitions(),
        vec![RebindTransition::AbortMissingAck]
    );
}

#[test]
fn rebind_response_gate_rolls_back_on_cancel_before_bootstrap() {
    let mut revisions = AffinityRevisions::new();
    let mut router = test_router();
    let (hot, cold) = hot_and_cold();
    let session_id = "response-gate-cancel";
    let mut gate = make_rebind_response_gate(&mut router, &mut revisions, session_id, hot, cold);

    let action = gate.observe(
        &mut router,
        &Annotated::from_data(LLMEngineOutput::cancelled()),
    );
    assert!(matches!(action, RebindStreamAction::ReplaceWithError(_)));
    assert_eq!(
        action,
        RebindStreamAction::ReplaceWithError(
            "cold prefill was cancelled before completion ACK".to_string()
        )
    );
    assert_eq!(visible_affinity(&mut router, session_id), Some(hot));
    assert!(gate.finish(&mut router).is_none());
}

#[test]
fn rebind_response_gate_cas_failure_preserves_concurrent_affinity() {
    let mut revisions = AffinityRevisions::new();
    let mut router = test_router();
    let (hot, cold) = hot_and_cold();
    let concurrent = WorkerWithDpRank::new(99, 0);
    let session_id = "response-gate-cas";
    let mut gate = make_rebind_response_gate(&mut router, &mut revisions, session_id, hot, cold);
    assert_eq!(
        gate.observe(&mut router, &prefill_bootstrap_output()),
        RebindStreamAction::Forward
    );

    bind(&mut router, &mut revisions, session_id, concurrent);
    assert_eq!(visible_affinity(&mut router, session_id), Some(concurrent));

    let action = gate.observe(&mut router, &prefill_complete_marker());
    assert!(matches!(action, RebindStreamAction::ReplaceWithError(_)));
    assert_eq!(visible_affinity(&mut router, session_id), Some(concurrent));
    assert!(gate.finish(&mut router).is_none());
    assert_eq!(
        router.take_transitions(),
        vec![RebindTransition::AbortCasConflict]
    );
}

#[test]
fn rebind_response_gate_keeps_cold_after_later_error() {
    let mut revisions = AffinityRevisions::new();
    let mut router = test_router();
    let (hot, cold) = hot_and_cold();
    let session_id = "response-gate-later-error";
    let mut gate = make_rebind_response_gate(&mut router, &mut revisions, session_id, hot, cold);

    assert_eq!(
        gate.observe(&mut router, &prefill_bootstrap_output()),
        RebindStreamAction::Forward
    );
    assert_eq!(
        gate.observe(&mut router, &prefill_complete_marker()),
        RebindStreamAction::Committed
    );
    assert_eq!(
        gate.observe(
            &mut router,
            &Annotated::from_error("late failure".to_string())
        ),
        RebindStreamAction::Forward
    );
    assert_eq!(visible_affinity(&mut router, session_id), Some(cold));
}

#[test]
fn rebind_response_gate_does_not_accept_marker_after_unrelated_data() {
    let mut revisions = AffinityRevisions::new();
    let mut router = test_router();
    let (hot, cold) = hot_and_cold();
    let session_id = "response-gate-no-bootstrap";
    let mut gate = make_rebind_response_gate(&mut router, &mut revisions, session_id, hot, cold);

    assert_eq!(
        gate.observe(
            &mut router,
            &Annotated::from_data(LLMEngineOutput::default())
        ),
        RebindStreamAction::Forward
    );
    let action = gate.observe(&mut router, &prefill_complete_marker());
    assert!(matches!(action, RebindStreamAction::ReplaceWithError(_)));
    assert_eq!(visible_affinity(&mut router, session_id), Some(hot));
    assert_eq!(
        router.take_transitions(),
        vec![RebindTransition::AbortAckBeforeBootstrap]
    );
}

#[test]
fn rebind_skips_session_lifecycle_actions() {
    let mut revisions = AffinityRevisions::new();
    let mut router = test_router();
    let mut scheduler = Scheduler::new(&[42], true);
    let (hot, _) = hot_and_cold();
    scheduler.add_request("lifecycle-hot-load", 8192, hot);

    for (index, action) in [
        SessionAction::Open,
        SessionAction::Bind,
        SessionAction::Close,
    ]
    .into_iter()
    .enumerate()
    {
        let session_id = format!("lifecycle-session-{index}");
        bind(&mut router, &mut revisions, &session_id, hot);

        let mut request = session_request(&session_id, Some(action), 128);
        let routing = request.routing.as_mut().unwrap();
        routing.prefill_worker_id = Some(999);
        routing.prefill_dp_rank = Some(0);
        scheduler.allowed = Some(vec![999]);
        let expected = router
            .sticky
            .rebind_token_for_phase(&request, RequestPhase::Prefill);
        let loads = scheduler.potential_loads(128);

        assert!(
            router
                .check_rebind_decision(
                    &request,
                    RequestPhase::Prefill,
                    expected,
                    &scheduler.configs,
                    Some(&loads)
                )
                .is_none(),
            "session lifecycle action must not trigger a rebind"
        );
        let request_id = format!("lifecycle-request-{index}");
        let prefill =
            select_prefill_request(&mut router, &mut revisions, &mut scheduler, &request, &request_id).unwrap();
        assert!(prefill.pending_rebind.is_none());
        assert_eq!(prefill.selection.instance_id, hot.worker_id);
        assert_eq!(prefill.selection.dp_rank, hot.dp_rank);
        assert_eq!(
            router
                .sticky
                .worker_for_phase(&request, RequestPhase::Prefill),
            Some(hot)
        );
        assert!(scheduler.free(&request_id));
    }

    assert!(scheduler.free("lifecycle-hot-load"));
}

#[test]
fn rebind_requires_worker_completion_ack_capability() {
    let mut revisions = AffinityRevisions::new();
    let mut router = test_router();
    let mut scheduler = Scheduler::new(&[42], false);
    let (hot, cold) = hot_and_cold();
    scheduler.add_request("capability-hot-load", 8192, hot);
    bind(&mut router, &mut revisions, "capability-session", hot);
    let request = session_request("capability-session", None, 128);
    let expected = router
        .sticky
        .rebind_token_for_phase(&request, RequestPhase::Prefill);
    let loads = scheduler.potential_loads(128);

    assert!(
        router
            .check_rebind_decision(
                &request,
                RequestPhase::Prefill,
                expected,
                &scheduler.configs,
                Some(&loads)
            )
            .is_none(),
        "a worker without the ACK capability must never enter shadow rebind"
    );
    let capable = Scheduler::new(&[42], true);
    let decision = router
        .check_rebind_decision(
            &request,
            RequestPhase::Prefill,
            expected,
            &capable.configs,
            Some(&loads),
        )
        .unwrap();
    assert_eq!(decision.cold, cold);
    assert!(scheduler.free("capability-hot-load"));
}

#[test]
fn pinned_session_turn_is_rejected_while_rebind_is_pending_then_released() {
    let mut revisions = AffinityRevisions::new();
    let mut router = test_router();
    let mut scheduler = Scheduler::new(&[42], true);
    let (hot, _) = hot_and_cold();
    scheduler.add_request("serialized-hot-load", 8192, hot);
    bind(&mut router, &mut revisions, "serialized-session", hot);

    let first = session_request("serialized-session", None, 128);
    let prefill =
        select_prefill_request(&mut router, &mut revisions, &mut scheduler, &first, "serialized-first").unwrap();
    assert!(prefill.pending_rebind.is_some());

    let mut second = session_request("serialized-session", None, 64);
    let routing = second.routing.as_mut().unwrap();
    routing.prefill_worker_id = Some(hot.worker_id);
    routing.prefill_dp_rank = Some(hot.dp_rank);
    let error = match select_prefill_request(
        &mut router,
        &mut revisions,
        &mut scheduler,
        &second,
        "serialized-second",
    ) {
        Ok(_) => panic!("concurrent turn unexpectedly acquired the session"),
        Err(error) => error.message(),
    };
    assert!(error.contains("already has an in-flight prefill turn"));

    let mut backend_pinned = session_request("serialized-session", None, 64);
    let routing = backend_pinned.routing.as_mut().unwrap();
    routing.backend_instance_id = Some(hot.worker_id);
    routing.dp_rank = Some(hot.dp_rank);
    let error = match select_prefill_request(
        &mut router,
        &mut revisions,
        &mut scheduler,
        &backend_pinned,
        "serialized-backend-pinned",
    ) {
        Ok(_) => panic!("backend-pinned turn unexpectedly acquired the session"),
        Err(error) => error.message(),
    };
    assert!(error.contains("already has an in-flight prefill turn"));
    assert_eq!(
        router
            .sticky
            .worker_for_phase(&first, RequestPhase::Prefill),
        Some(hot)
    );

    prefill
        .pending_rebind
        .unwrap()
        .abandon(&mut router.sticky);
    router.release_turn(prefill.session_turn);
    assert!(scheduler.free("serialized-first"));

    let prefill =
        select_prefill_request(&mut router, &mut revisions, &mut scheduler, &second, "serialized-second").unwrap();
    assert_eq!(prefill.selection.instance_id, hot.worker_id);
    assert_eq!(prefill.selection.dp_rank, hot.dp_rank);
    assert!(prefill.pending_rebind.is_none());
    assert!(prefill.session_turn.is_some());
    router.release_turn(prefill.session_turn);
    assert!(scheduler.free("serialized-second"));
    assert!(scheduler.free("serialized-hot-load"));
}

#[test]
fn actionless_session_turn_rejection_preserves_accounting_and_allows_reacquire() {
    let mut revisions = AffinityRevisions::new();
    let mut router = test_router();
    let mut scheduler = Scheduler::new(&[42], true);
    let (hot, _) = hot_and_cold();
    scheduler.add_request("actionless-hot-load", 8192, hot);
    bind(&mut router, &mut revisions, "actionless-session", hot);

    let first = session_request("actionless-session", None, 128);
    let prefill =
        select_prefill_request(&mut router, &mut revisions, &mut scheduler, &first, "actionless-first").unwrap();
    assert!(prefill.pending_rebind.is_some());
    assert!(prefill.session_turn.is_some());
    let held_snapshot = scheduler.bookings.clone();

    let second = session_request("actionless-session", None, 64);
    let error = match select_prefill_request(
        &mut router,
        &mut revisions,
        &mut scheduler,
        &second,
        "actionless-second",
    ) {
        Ok(_) => panic!("concurrent actionless turn unexpectedly acquired the session"),
        Err(error) => error,
    };
    assert!(error.is_invalid_argument());
    assert!(error
        .message()
        .contains("already has an in-flight prefill turn"));
    assert!(error.message().contains("actionless-first"));
    assert_eq!(
        scheduler.bookings, held_snapshot,
        "a rejected turn must not add a second scheduler booking"
    );

    prefill
        .pending_rebind
        .unwrap()
        .abandon(&mut router.sticky);
    router.release_turn(prefill.session_turn);
    assert!(scheduler.free("actionless-first"));
    let released_snapshot = scheduler.bookings.clone();

    let retry =
        select_prefill_request(&mut router, &mut revisions, &mut scheduler, &second, "actionless-second").unwrap();
    assert!(retry.pending_rebind.is_some());
    assert!(retry.session_turn.is_some());
    retry.pending_rebind.unwrap().abandon(&mut router.sticky);
    router.release_turn(retry.session_turn);
    assert!(scheduler.free("actionless-second"));
    assert_eq!(
        scheduler.bookings, released_snapshot,
        "retry booking must be released exactly once"
    );

    assert!(scheduler.free("actionless-hot-load"));
}

#[test]
fn rebind_chooses_coldest_eligible_target() {
    let mut revisions = AffinityRevisions::new();
    let mut router = test_router();
    let mut scheduler = Scheduler::new(&[42, 99], true);
    let hot = WorkerWithDpRank::new(42, 0);
    let eligible_cold = WorkerWithDpRank::new(42, 1);
    scheduler.add_request("eligible-hot-load", 8192, hot);
    scheduler.add_request("eligible-cold-load", 1024, eligible_cold);
    bind(&mut router, &mut revisions, "eligible-session", hot);
    scheduler.allowed = Some(vec![42]);

    let request = session_request("eligible-session", None, 128);
    let prefill = select_prefill_request(
        &mut router,
        &mut revisions,
        &mut scheduler,
        &request,
        "eligible-rebind-request",
    )
    .unwrap();
    assert_eq!(prefill.selection.instance_id, eligible_cold.worker_id);
    assert_eq!(prefill.selection.dp_rank, eligible_cold.dp_rank);
    prefill
        .pending_rebind
        .unwrap()
        .abandon(&mut router.sticky);

    assert!(scheduler.free("eligible-rebind-request"));
    assert!(scheduler.free("eligible-hot-load"));
    assert!(scheduler.free("eligible-cold-load"));
}

#[test]
fn rebind_books_and_tracks_only_the_final_cold_target() {
    let mut revisions = AffinityRevisions::new();
    let mut router = test_router();
    let mut scheduler = Scheduler::new(&[42], true);
    let (hot, cold) = hot_and_cold();
    scheduler.add_request("existing-hot-load", 8192, hot);
    bind(&mut router, &mut revisions, "session-a", hot);

    assert_eq!(scheduler.booked(hot), (8192, 1));
    assert_eq!(scheduler.booked(cold), (0, 0));

    let mut request = session_request("session-a", None, 128);
    request.tracker_phase = Some(RequestPhase::Prefill);
    let mut prefill =
        select_prefill_request(&mut router, &mut revisions, &mut scheduler, &request, "rebind-request").unwrap();
    assert_eq!(prefill.selection.instance_id, cold.worker_id);
    assert_eq!(prefill.selection.dp_rank, cold.dp_rank);
    assert_eq!(
        router
            .sticky
            .worker_for_phase(&request, RequestPhase::Prefill),
        Some(hot),
        "the cold target must remain shadowed until dispatch succeeds"
    );

    assert_eq!(
        scheduler.booked(hot),
        (8192, 1),
        "rebind must not leave a stateful booking on the old hot rank"
    );
    assert_eq!(scheduler.booked(cold), (128, 1));

    match track_selection(&request, &mut prefill.selection, true) {
        Some(RoutingRecord::Tokens { worker, .. }) => {
            assert_eq!(worker.worker_id, cold.worker_id);
            assert_eq!(worker.dp_rank, cold.dp_rank);
        }
        _ => panic!("without hashes the tokens are recorded"),
    }

    let told = tracker_record(&request, &prefill.selection, 128, 16).unwrap();
    assert_eq!(told.worker.worker_id, cold.worker_id);
    assert_eq!(told.worker.dp_rank, cold.dp_rank);

    assert!(prefill
        .pending_rebind
        .unwrap()
        .commit(&mut router.sticky));
    assert_eq!(
        router
            .sticky
            .worker_for_phase(&request, RequestPhase::Prefill),
        Some(cold)
    );

    assert!(scheduler.free("rebind-request"));
    assert!(scheduler.free("existing-hot-load"));
    assert_eq!(scheduler.booked(hot), (0, 0));
    assert_eq!(scheduler.booked(cold), (0, 0));
}

#[test]
fn rebind_cas_does_not_restore_binding_removed_after_decision() {
    let mut revisions = AffinityRevisions::new();
    let mut router = test_router();
    let (hot, cold) = hot_and_cold();
    let request = session_request("session-race", None, 128);
    bind(&mut router, &mut revisions, "session-race", hot);

    let expected = router
        .sticky
        .rebind_token_for_phase(&request, RequestPhase::Prefill)
        .unwrap();
    let decision = RebindDecision {
        session_id: "session-race".to_string(),
        expected,
        cold,
        ttl: Duration::from_secs(300),
    };
    let (_, removed) = router
        .sticky
        .unbind_for_phase(&request, RequestPhase::Prefill)
        .unwrap();
    assert_eq!(removed.unwrap().worker, hot);

    assert!(router
        .sticky
        .begin_rebind(
            &decision.session_id,
            decision.expected,
            decision.cold,
            decision.ttl,
            &mut revisions,
        )
        .is_none());
    assert_eq!(
        router
            .sticky
            .worker_for_phase(&request, RequestPhase::Prefill),
        None,
        "a removed binding must not be resurrected as cold by a stale decision"
    );
}

#[test]
fn rebind_prepare_failure_rolls_back_shadow_and_cold_booking() {
    let mut revisions = AffinityRevisions::new();
    let mut router = test_router();
    let mut scheduler = Scheduler::new(&[42], true);
    let (hot, cold) = hot_and_cold();
    scheduler.add_request("prepare-fail-hot-load", 8192, hot);
    bind(&mut router, &mut revisions, "session-prepare-fail", hot);

    let request = session_request("session-prepare-fail", None, 128);
    let prefill = select_prefill_request(
        &mut router,
        &mut revisions,
        &mut scheduler,
        &request,
        "prepare-fail-request",
    )
    .unwrap();
    assert!(prefill.pending_rebind.is_some());
    router.prepare_failed(prefill);
    assert!(scheduler.free("prepare-fail-request"));

    assert_eq!(
        visible_affinity(&mut router, "session-prepare-fail"),
        Some(hot)
    );
    assert_eq!(scheduler.booked(hot), (8192, 1));
    assert_eq!(scheduler.booked(cold), (0, 0));
    assert_eq!(
        router.take_transitions(),
        vec![
            RebindTransition::DecisionLoadImbalance,
            RebindTransition::AbortPrepareError
        ]
    );
    assert!(router.start_prefill(&request, "next").is_ok());
    assert!(scheduler.free("prepare-fail-hot-load"));
}

#[test]
fn rebind_dispatch_failure_rolls_back_shadow_and_cold_booking() {
    let mut revisions = AffinityRevisions::new();
    let mut router = test_router();
    let mut scheduler = Scheduler::new(&[42], true);
    let (hot, cold) = hot_and_cold();
    scheduler.add_request("dispatch-fail-hot-load", 8192, hot);
    bind(&mut router, &mut revisions, "session-dispatch-fail", hot);

    let mut request = session_request("session-dispatch-fail", None, 128);
    let prefill = select_prefill_request(
        &mut router,
        &mut revisions,
        &mut scheduler,
        &request,
        "dispatch-fail-request",
    )
    .unwrap();
    assert!(prefill.pending_rebind.is_some());
    let mut dispatch = Dispatch::prefill(prefill.pending_rebind, prefill.session_turn);
    let outcome = match router.sticky.on_routed(&request, prefill.selection.rank(), &mut revisions) {
        RoutedStep::Done(outcome) => outcome,
        _ => panic!("a turn without an action is routed at once"),
    };
    dispatch.routed(&mut request, &prefill.selection, outcome);
    assert_eq!(request.routing.as_ref().unwrap().dp_rank, Some(1));
    assert!(dispatch.dispatch_failed(&mut router).is_none());
    assert!(scheduler.free("dispatch-fail-request"));

    assert_eq!(
        visible_affinity(&mut router, "session-dispatch-fail"),
        Some(hot)
    );
    assert_eq!(scheduler.booked(hot), (8192, 1));
    assert_eq!(scheduler.booked(cold), (0, 0));
    assert_eq!(
        router.take_transitions(),
        vec![
            RebindTransition::DecisionLoadImbalance,
            RebindTransition::AbortDispatchError
        ]
    );
    assert!(scheduler.free("dispatch-fail-hot-load"));
}

#[test]
fn llm_error_is_passed_on_in_the_message() {
    let mut revisions = AffinityRevisions::new();
    let mut router = test_router();
    let (hot, cold) = hot_and_cold();
    let mut gate = make_rebind_response_gate(&mut router, &mut revisions, "llm-error", hot, cold);
    assert_eq!(
        gate.observe(&mut router, &prefill_bootstrap_output()),
        RebindStreamAction::Forward
    );
    let failed = Annotated::from_data(LLMEngineOutput {
        finish_reason: Some(FinishReason::Error("out of memory".to_string())),
        ..Default::default()
    });
    assert_eq!(
        gate.observe(&mut router, &failed),
        RebindStreamAction::ReplaceWithError(
            "cold prefill failed before completion ACK: out of memory".to_string()
        )
    );
    assert_eq!(
        router.take_transitions(),
        vec![RebindTransition::AbortLlmError]
    );
    assert_eq!(visible_affinity(&mut router, "llm-error"), Some(hot));
}

#[test]
fn stream_that_ends_after_bootstrap_fails_closed() {
    let mut revisions = AffinityRevisions::new();
    let mut router = test_router();
    let (hot, cold) = hot_and_cold();
    let mut gate = make_rebind_response_gate(&mut router, &mut revisions, "no-ack", hot, cold);
    gate.observe(&mut router, &prefill_bootstrap_output());
    assert_eq!(
        gate.finish(&mut router).as_deref(),
        Some("cold prefill stream ended without a completion ACK")
    );
    assert!(gate.finish(&mut router).is_none());
}

#[test]
fn stopped_request_and_dropped_stream_give_the_rebind_up() {
    let mut revisions = AffinityRevisions::new();
    let mut router = test_router();
    let (hot, cold) = hot_and_cold();
    let mut gate = make_rebind_response_gate(&mut router, &mut revisions, "stopped", hot, cold);
    assert!(gate.cancel(&mut router));
    assert!(!gate.cancel(&mut router));
    let mut gate = make_rebind_response_gate(&mut router, &mut revisions, "dropped", hot, cold);
    gate.abandon(&mut router);
    gate.abandon(&mut router);
    assert_eq!(
        router.take_transitions(),
        vec![
            RebindTransition::AbortContextStopped,
            RebindTransition::AbortStreamDropped
        ]
    );
    assert_eq!(visible_affinity(&mut router, "stopped"), Some(hot));
    assert_eq!(visible_affinity(&mut router, "dropped"), Some(hot));
}

#[test]
fn control_frames_are_held_back_without_a_rebind() {
    let mut router = test_router();
    let mut gate = RebindResponseGate::new(None);
    assert_eq!(
        gate.observe(&mut router, &prefill_complete_marker()),
        RebindStreamAction::SuppressControlFrame
    );
    let mut with_event = prefill_complete_marker();
    with_event.event = Some("note".to_string());
    assert_eq!(
        gate.observe(&mut router, &with_event),
        RebindStreamAction::Forward
    );
    assert_eq!(
        gate.observe(&mut router, &prefill_bootstrap_output()),
        RebindStreamAction::Forward
    );
    assert!(router.take_transitions().is_empty());
}

#[test]
fn only_the_boolean_true_is_a_marker() {
    let mut router = test_router();
    let mut gate = RebindResponseGate::new(None);
    for value in [
        serde_json::Value::Bool(false),
        serde_json::Value::from(1),
        serde_json::Value::from("true"),
        serde_json::Value::Null,
    ] {
        let frame = Annotated::from_data(LLMEngineOutput {
            extra_args: Some(object(vec![("dynamo_prefill_complete", value)])),
            ..Default::default()
        });
        assert_eq!(gate.observe(&mut router, &frame), RebindStreamAction::Forward);
    }
    let not_an_object = Annotated::from_data(LLMEngineOutput {
        extra_args: Some(serde_json::Value::Bool(true)),
        ..Default::default()
    });
    assert_eq!(
        gate.observe(&mut router, &not_an_object),
        RebindStreamAction::Forward
    );
}

#[test]
fn annotation_frames_prove_nothing() {
    let mut revisions = AffinityRevisions::new();
    let mut router = test_router();
    let (hot, cold) = hot_and_cold();
    let mut gate = make_rebind_response_gate(&mut router, &mut revisions, "annotation", hot, cold);
    let annotation = Annotated {
        data: None,
        event: Some("note".to_string()),
        annotation: None,
        is_error: false,
        error: None,
    };
    assert_eq!(
        gate.observe(&mut router, &annotation),
        RebindStreamAction::Forward
    );
    assert!(gate.is_countable(&router));
    assert!(matches!(
        gate.observe(&mut router, &prefill_complete_marker()),
        RebindStreamAction::ReplaceWithError(_)
    ));
}

#[test]
fn stale_decision_is_refused_and_gives_the_turn_back() {
    let mut revisions = AffinityRevisions::new();
    let mut router = test_router();
    let (hot, cold) = hot_and_cold();
    bind(&mut router, &mut revisions, "stale", hot);
    let request = session_request("stale", None, 128);
    let turn = match router.start_prefill(&request, "req").unwrap() {
        PrefillStep::Resolve(turn) => turn,
        _ => panic!("an ordinary turn resolves its session"),
    };
    let expected: AffinityBindingToken = router
        .sticky
        .rebind_token_for_phase(&request, RequestPhase::Prefill)
        .unwrap();
    bind(&mut router, &mut revisions, "stale", hot);
    let decision = RebindDecision {
        session_id: "stale".to_string(),
        expected,
        cold,
        ttl: Duration::from_secs(300),
    };
    let selection = WorkerSelection {
        instance_id: 42,
        dp_rank: 1,
        scheduler_tracked: true,
        cached_tokens: 0,
        routing_hashes: None,
    };
    let refused = match router.start_shadow("req", turn, &decision, selection, &mut revisions) {
        Ok(_) => panic!("a stale decision must not start a rebind"),
        Err(refused) => refused,
    };
    assert!(refused.free_booking);
    assert_eq!(
        refused.error.message(),
        "session stale changed while preparing rebind; refusing stale cold dispatch"
    );
    assert!(!refused.error.is_invalid_argument());
    assert!(router.start_prefill(&request, "again").is_ok());
}

#[test]
fn booking_of_another_rank_is_refused() {
    let mut revisions = AffinityRevisions::new();
    let mut router = test_router();
    let (hot, cold) = hot_and_cold();
    bind(&mut router, &mut revisions, "mismatch", hot);
    let request = session_request("mismatch", None, 128);
    let expected = router
        .sticky
        .rebind_token_for_phase(&request, RequestPhase::Prefill)
        .unwrap();
    let decision = RebindDecision {
        session_id: "mismatch".to_string(),
        expected,
        cold,
        ttl: Duration::from_secs(300),
    };
    let selection = WorkerSelection {
        instance_id: 7,
        dp_rank: 3,
        scheduler_tracked: false,
        cached_tokens: 0,
        routing_hashes: None,
    };
    let refused = match router.start_shadow("req-9", None, &decision, selection, &mut revisions) {
        Ok(_) => panic!("another rank must not be used"),
        Err(refused) => refused,
    };
    assert!(!refused.free_booking);
    assert_eq!(
        refused.error.message(),
        "stateful final-target selection mismatch for request req-9: \
         expected worker 42 dp_rank 1, got worker 7 dp_rank 3"
    );
    assert!(router.take_transitions().is_empty());
}

#[test]
fn frames_are_carried_out_and_the_turn_is_given_back() {
    let mut revisions = AffinityRevisions::new();
    let mut router = test_router();
    let mut scheduler = Scheduler::new(&[42], true);
    let (hot, cold) = hot_and_cold();
    scheduler.add_request("hot-load", 8192, hot);
    bind(&mut router, &mut revisions, "stream", hot);
    let request = session_request("stream", None, 128);
    let prefill =
        select_prefill_request(&mut router, &mut revisions, &mut scheduler, &request, "stream-request").unwrap();
    let mut response = Dispatch::prefill(prefill.pending_rebind, prefill.session_turn).dispatched();
    assert!(matches!(
        response.on_item(&mut router, prefill_bootstrap_output()),
        StreamStep::Yield(_)
    ));
    assert!(matches!(
        response.on_item(&mut router, prefill_complete_marker()),
        StreamStep::Skip
    ));
    assert!(router.start_prefill(&request, "too-early").is_err());
    assert!(response.finish(&mut router).is_none());
    assert!(router.start_prefill(&request, "in-time").is_ok());
    assert_eq!(visible_affinity(&mut router, "stream"), Some(cold));
}

#[test]
fn failed_rebind_ends_the_stream_with_an_error() {
    let mut revisions = AffinityRevisions::new();
    let mut router = test_router();
    let (hot, cold) = hot_and_cold();
    bind(&mut router, &mut revisions, "ends", hot);
    let request = session_request("ends", None, 128);
    let expected = router
        .sticky
        .rebind_token_for_phase(&request, RequestPhase::Prefill)
        .unwrap();
    let ttl = Duration::from_secs(300);
    let pending = router.sticky.begin_rebind("ends", expected, cold, ttl, &mut revisions);
    let mut response = Dispatch::prefill(pending, None).dispatched();
    match response.on_item(&mut router, prefill_complete_marker()) {
        StreamStep::Last(frame) => {
            assert!(frame.is_error);
            assert_eq!(
                frame.error.as_deref(),
                Some("cold prefill completion ACK arrived before bootstrap data")
            );
        }
        _ => panic!("a failed rebind ends the stream"),
    }
    assert!(response.finish(&mut router).is_none());

    let pending = router.sticky.begin_rebind("ends", expected, cold, ttl, &mut revisions);
    let response = Dispatch::prefill(pending, None).dispatched();
    let last = response.finish(&mut router).unwrap();
    assert_eq!(
        last.error.as_deref(),
        Some("cold prefill stream ended before bootstrap data or completion ACK")
    );

    let pending = router.sticky.begin_rebind("ends", expected, cold, ttl, &mut revisions);
    let mut response = Dispatch::prefill(pending, None).dispatched();
    assert!(response.on_stopped(&mut router));
    assert!(response.finish(&mut router).is_none());

    let pending = router.sticky.begin_rebind("ends", expected, cold, ttl, &mut revisions);
    Dispatch::prefill(pending, None)
        .dispatched()
        .dropped(&mut router);
    let pending = router.sticky.begin_rebind("ends", expected, cold, ttl, &mut revisions);
    Dispatch::prefill(pending, None).route_failed(&mut router);
    let pending = router.sticky.begin_rebind("ends", expected, cold, ttl, &mut revisions);
    router.tracking_failed(PrefillSelection {
        selection: WorkerSelection {
            instance_id: 42,
            dp_rank: 1,
            scheduler_tracked: true,
            cached_tokens: 0,
            routing_hashes: None,
        },
        pending_rebind: pending,
        session_turn: None,
    });
    assert_eq!(
        router.take_transitions(),
        vec![
            RebindTransition::AbortAckBeforeBootstrap,
            RebindTransition::AbortMissingAck,
            RebindTransition::AbortContextStopped,
            RebindTransition::AbortStreamDropped,
            RebindTransition::AbortRouteError,
            RebindTransition::AbortTrackingError,
        ]
    );
    assert_eq!(visible_affinity(&mut router, "ends"), Some(hot));
}

#[test]
fn failed_dispatch_undoes_a_routed_bind() {
    let mut revisions = AffinityRevisions::new();
    let mut router = test_router();
    let mut request = session_request("undo", Some(SessionAction::Bind), 1);
    let selection = WorkerSelection {
        instance_id: 5,
        dp_rank: 2,
        scheduler_tracked: true,
        cached_tokens: 0,
        routing_hashes: None,
    };
    let outcome: SessionRoutingResult = match router.sticky.on_routed(&request, selection.rank(), &mut revisions) {
        RoutedStep::Done(outcome) => outcome,
        _ => panic!("a bind is done at once"),
    };
    let mut dispatch = Dispatch::plain();
    assert!(dispatch
        .routed(&mut request, &selection, outcome)
        .is_none());
    assert_eq!(
        visible_affinity(&mut router, "undo"),
        Some(selection.rank())
    );
    assert!(dispatch.dispatch_failed(&mut router).is_none());
    assert_eq!(visible_affinity(&mut router, "undo"), None);
    assert!(router.take_transitions().is_empty());
}
