use kv_router::protocols::WorkerWithDpRank;
use kv_router::sticky::revisions::AffinityRevisions;
use kv_router::sticky::router::{
    AffinityBinding, AffinityEntry, AffinityKind, AffinityStore, InMemoryAffinityStore,
    StickySessionRouter,
};
use kv_router::time::{Duration, Instant};

const SECOND: u128 = 1_000_000_000;

fn worker(worker_id: u64, dp_rank: u32) -> WorkerWithDpRank {
    WorkerWithDpRank::new(worker_id, dp_rank)
}

fn at(seconds: u128) -> Instant {
    Instant {
        nanos: seconds * SECOND,
    }
}

fn entry(
    target: WorkerWithDpRank,
    ttl_secs: u64,
    expires_at: Instant,
    kind: AffinityKind,
) -> AffinityEntry {
    AffinityEntry {
        worker: target,
        ttl: Duration::from_secs(ttl_secs),
        expires_at,
        kind,
        revision: 1,
        pending_rebind: None,
    }
}

fn router() -> StickySessionRouter<InMemoryAffinityStore> {
    StickySessionRouter::new(InMemoryAffinityStore::new())
}

#[test]
fn resolve_returns_none_for_unknown_session() {
    let mut router = router();
    assert!(router.resolve_session("unknown-session").is_none());
}

#[test]
fn bind_then_resolve_returns_worker_and_dp_rank() {
    let mut revisions = AffinityRevisions::new();
    let mut router = router();
    router.bind(
        "sess-1",
        worker(42, 3),
        Duration::from_secs(300),
        AffinityKind::EngineBacked,
        &mut revisions,
    );

    assert_eq!(router.resolve_session("sess-1"), Some(worker(42, 3)));
}

#[test]
fn peek_returns_worker_without_refreshing_ttl() {
    let mut store = InMemoryAffinityStore::new();
    let now = at(100);
    let expires_at = now.plus(Duration::from_secs(5));
    store.restore(
        "sess-peek",
        entry(worker(7, 2), 60, expires_at, AffinityKind::EngineBacked),
    );
    let mut router = StickySessionRouter::new(store);

    assert_eq!(
        router.peek_session_at("sess-peek", now),
        Some(worker(7, 2))
    );

    let entry = router.store.entry("sess-peek").unwrap();
    assert_eq!(entry.expires_at, expires_at);
}

#[test]
fn bind_overwrites_worker_rank_and_ttl() {
    let mut revisions = AffinityRevisions::new();
    let mut router = router();
    router.bind(
        "sess-1",
        worker(1, 0),
        Duration::from_secs(10),
        AffinityKind::EngineBacked,
        &mut revisions,
    );
    router.bind(
        "sess-1",
        worker(2, 3),
        Duration::from_secs(90),
        AffinityKind::RouterOnly,
        &mut revisions,
    );

    assert_eq!(router.peek_session("sess-1"), Some(worker(2, 3)));

    let entry = router.store.entry("sess-1").unwrap();
    assert_eq!(entry.worker, worker(2, 3));
    assert_eq!(entry.ttl, Duration::from_secs(90));
    assert_eq!(entry.kind, AffinityKind::RouterOnly);
    assert!(entry.expires_at.nanos > router.now().plus(Duration::from_secs(80)).nanos);
}

#[test]
fn shadow_rebind_stays_hot_until_atomic_commit() {
    let mut revisions = AffinityRevisions::new();
    let mut router = router();
    let expected = router.bind(
        "sess-1",
        worker(42, 3),
        Duration::from_secs(300),
        AffinityKind::EngineBacked,
        &mut revisions,
    );

    let transition = router
        .begin_rebind("sess-1", expected, worker(42, 7), Duration::from_secs(300), &mut revisions)
        .unwrap();

    assert_eq!(router.peek_session("sess-1"), Some(worker(42, 3)));
    assert!(router.peek_rebind_token("sess-1").is_none());
    assert!(router.commit_rebind("sess-1", transition));
    assert_eq!(router.peek_session("sess-1"), Some(worker(42, 7)));
    let entry = router.store.entry("sess-1").unwrap();
    assert_eq!(entry.worker, worker(42, 7));
    assert_eq!(entry.kind, AffinityKind::EngineBacked);
    assert!(entry.pending_rebind.is_none());
    assert!(router.in_rebind_cooldown("sess-1", Duration::from_secs(5)));
}

#[test]
fn rebind_gate_fires_on_existing_binding_not_on_fresh_session() {
    let mut revisions = AffinityRevisions::new();
    let mut router = router();

    assert!(
        router.peek_session("fresh-session").is_none(),
        "a never-bound session must be a MISS so the rebind gate skips it"
    );

    router.bind(
        "bound-session",
        worker(11, 2),
        Duration::from_secs(300),
        AffinityKind::RouterOnly,
        &mut revisions,
    );
    assert_eq!(
        router.peek_session("bound-session"),
        Some(worker(11, 2)),
        "an already-bound session must be a HIT so the rebind gate proceeds"
    );

    assert!(
        router.peek_session("fresh-session").is_none(),
        "gate peek must be side-effect-free (no implicit bind on MISS)"
    );
}

#[test]
fn stale_rebind_revision_does_not_overwrite_newer_binding() {
    let mut revisions = AffinityRevisions::new();
    let mut router = router();
    let stale = router.bind(
        "sess-1",
        worker(1, 0),
        Duration::from_secs(300),
        AffinityKind::RouterOnly,
        &mut revisions,
    );
    router.bind(
        "sess-1",
        worker(2, 0),
        Duration::from_secs(300),
        AffinityKind::RouterOnly,
        &mut revisions,
    );

    assert!(router
        .begin_rebind("sess-1", stale, worker(3, 0), Duration::from_secs(300), &mut revisions)
        .is_none());
    assert_eq!(router.peek_session("sess-1"), Some(worker(2, 0)));
}

#[test]
fn shadow_rebind_rollback_preserves_hot_and_not_newer_binding() {
    let mut revisions = AffinityRevisions::new();
    let mut router = router();
    let expected = router.bind(
        "sess-1",
        worker(1, 0),
        Duration::from_secs(300),
        AffinityKind::RouterOnly,
        &mut revisions,
    );
    let transition = router
        .begin_rebind("sess-1", expected, worker(1, 1), Duration::from_secs(300), &mut revisions)
        .unwrap();

    assert!(router.rollback_rebind("sess-1", transition));
    assert_eq!(router.peek_session("sess-1"), Some(worker(1, 0)));
    assert!(router.peek_rebind_token("sess-1").is_some());
    assert!(!router.in_rebind_cooldown("sess-1", Duration::from_secs(5)));

    let transition = router
        .begin_rebind("sess-1", expected, worker(1, 1), Duration::from_secs(300), &mut revisions)
        .unwrap();
    router.bind(
        "sess-1",
        worker(9, 0),
        Duration::from_secs(300),
        AffinityKind::RouterOnly,
        &mut revisions,
    );
    assert!(!router.rollback_rebind("sess-1", transition));
    assert_eq!(router.peek_session("sess-1"), Some(worker(9, 0)));
}

#[test]
fn shadow_commit_does_not_overwrite_concurrent_put_or_remove() {
    let mut revisions = AffinityRevisions::new();
    let mut router = router();
    let expected = router.bind(
        "sess-put",
        worker(1, 0),
        Duration::from_secs(300),
        AffinityKind::RouterOnly,
        &mut revisions,
    );
    let transition = router
        .begin_rebind("sess-put", expected, worker(1, 1), Duration::from_secs(300), &mut revisions)
        .unwrap();
    router.bind(
        "sess-put",
        worker(9, 0),
        Duration::from_secs(300),
        AffinityKind::RouterOnly,
        &mut revisions,
    );
    assert!(!router.commit_rebind("sess-put", transition));
    assert_eq!(router.peek_session("sess-put"), Some(worker(9, 0)));

    let expected = router.bind(
        "sess-remove",
        worker(2, 0),
        Duration::from_secs(300),
        AffinityKind::RouterOnly,
        &mut revisions,
    );
    let transition = router
        .begin_rebind(
            "sess-remove",
            expected,
            worker(2, 1),
            Duration::from_secs(300),
            &mut revisions,
        )
        .unwrap();
    assert!(router.unbind("sess-remove").is_some());
    assert!(!router.commit_rebind("sess-remove", transition));
    assert_eq!(router.peek_session("sess-remove"), None);
}

#[test]
fn engine_backed_cross_worker_rebind_fails_closed() {
    let mut revisions = AffinityRevisions::new();
    let mut router = router();
    let expected = router.bind(
        "sess-1",
        worker(1, 0),
        Duration::from_secs(300),
        AffinityKind::EngineBacked,
        &mut revisions,
    );

    assert!(router
        .begin_rebind("sess-1", expected, worker(2, 0), Duration::from_secs(300), &mut revisions)
        .is_none());
    assert_eq!(router.peek_session("sess-1"), Some(worker(1, 0)));
}

#[test]
fn rollback_token_does_not_remove_newer_binding() {
    let mut revisions = AffinityRevisions::new();
    let mut router = router();
    let stale = router.bind(
        "sess-1",
        worker(1, 0),
        Duration::from_secs(30),
        AffinityKind::RouterOnly,
        &mut revisions,
    );
    router.bind(
        "sess-1",
        worker(2, 0),
        Duration::from_secs(30),
        AffinityKind::RouterOnly,
        &mut revisions,
    );

    assert!(!router.unbind_if_token("sess-1", stale));
    assert_eq!(router.peek_session("sess-1"), Some(worker(2, 0)));
}

#[test]
fn rollback_token_removes_its_own_binding() {
    let mut revisions = AffinityRevisions::new();
    let mut router = router();
    let token = router.bind(
        "sess-1",
        worker(1, 0),
        Duration::from_secs(30),
        AffinityKind::RouterOnly,
        &mut revisions,
    );

    assert!(router.unbind_if_token("sess-1", token));
    assert_eq!(router.peek_session("sess-1"), None);
}

#[test]
fn unbind_removes_affinity() {
    let mut revisions = AffinityRevisions::new();
    let mut router = router();
    router.bind(
        "sess-1",
        worker(42, 1),
        Duration::from_secs(300),
        AffinityKind::EngineBacked,
        &mut revisions,
    );
    assert_eq!(
        router.unbind("sess-1"),
        Some(AffinityBinding {
            worker: worker(42, 1),
            kind: AffinityKind::EngineBacked,
        })
    );

    assert!(router.resolve_session("sess-1").is_none());
}

#[test]
fn expired_entry_returns_none() {
    let mut store = InMemoryAffinityStore::new();
    store.restore(
        "sess-expired",
        entry(worker(99, 0), 0, at(99), AffinityKind::EngineBacked),
    );
    let mut router = StickySessionRouter::new(store);

    assert!(router.resolve_session_at("sess-expired", at(100)).is_none());
    assert!(router.store.peek("sess-expired", at(100)).is_none());
    assert!(router.store.entry("sess-expired").is_none());
}

#[test]
fn resolve_refreshes_ttl() {
    let mut store = InMemoryAffinityStore::new();
    let now = at(100);
    store.restore(
        "sess-refresh",
        entry(
            worker(7, 2),
            60,
            now.plus(Duration::from_secs(5)),
            AffinityKind::EngineBacked,
        ),
    );
    let mut router = StickySessionRouter::new(store);

    assert_eq!(
        router.resolve_session_at("sess-refresh", now),
        Some(worker(7, 2))
    );

    let entry = router.store.entry("sess-refresh").unwrap();
    let remaining = entry.expires_at.nanos - now.nanos;
    assert!(
        remaining > 50 * SECOND,
        "TTL should have been refreshed, but remaining={remaining:?}"
    );
    assert_eq!(remaining, 60 * SECOND);
}

#[test]
fn expired_entry_triggers_close_callback_on_resolve() {
    let mut store = InMemoryAffinityStore::new_with_on_expire(true);
    store.restore(
        "sess-expired",
        entry(worker(99, 0), 0, at(99), AffinityKind::EngineBacked),
    );
    let mut router = StickySessionRouter::new(store);

    assert!(router.resolve_session_at("sess-expired", at(100)).is_none());
    assert_eq!(
        router.take_expired().as_slice(),
        &[("sess-expired".to_string(), 99)]
    );
}

#[test]
fn expired_router_only_entry_drops_without_close_callback_on_resolve() {
    let mut store = InMemoryAffinityStore::new_with_on_expire(true);
    store.restore(
        "sess-router-only",
        entry(worker(11, 0), 0, at(99), AffinityKind::RouterOnly),
    );
    let mut router = StickySessionRouter::new(store);

    assert!(router
        .resolve_session_at("sess-router-only", at(100))
        .is_none());
    assert!(router.take_expired().is_empty());
}

#[test]
fn expired_lookup_does_not_remove_newer_binding() {
    let mut revisions = AffinityRevisions::new();
    let mut store = InMemoryAffinityStore::new_with_on_expire(true);
    let now = at(100);
    store.restore(
        "sess-race",
        entry(worker(1, 0), 1, at(99), AffinityKind::EngineBacked),
    );

    let stale = store.entry("sess-race").unwrap();
    let stale_binding = stale.binding();
    let stale_expires_at = stale.expires_at;

    store.put(
        "sess-race",
        worker(2, 1),
        Duration::from_secs(300),
        AffinityKind::EngineBacked,
        now,
        &mut revisions,
    );
    store.remove_expired_if_current("sess-race", stale_binding, stale_expires_at, now);

    assert_eq!(store.peek("sess-race", now), Some(worker(2, 1)));
    assert!(store.take_expired().is_empty());
}

#[test]
fn reaper_triggers_close_callback_for_expired_entry() {
    let mut store = InMemoryAffinityStore::new_with_on_expire(true);
    store.restore(
        "sess-reaped",
        entry(worker(17, 0), 30, at(99), AffinityKind::EngineBacked),
    );

    store.reap_expired(at(100));

    assert!(store.entry("sess-reaped").is_none());
    assert_eq!(
        store.take_expired().as_slice(),
        &[("sess-reaped".to_string(), 17)]
    );
}

#[test]
fn reaper_drops_router_only_entry_without_close_callback() {
    let mut store = InMemoryAffinityStore::new_with_on_expire(true);
    store.restore(
        "sess-router-only-reaped",
        entry(worker(18, 0), 30, at(99), AffinityKind::RouterOnly),
    );

    store.reap_expired(at(100));

    assert!(store.entry("sess-router-only-reaped").is_none());
    assert!(store.take_expired().is_empty());
}

#[test]
fn sweep_keeps_live_sessions_and_announces_each_engine_session_once() {
    let mut store = InMemoryAffinityStore::new_with_on_expire(true);
    store.restore(
        "gone-a",
        entry(worker(1, 0), 30, at(99), AffinityKind::EngineBacked),
    );
    store.restore(
        "gone-b",
        entry(worker(2, 0), 30, at(100), AffinityKind::EngineBacked),
    );
    store.restore(
        "live",
        entry(worker(3, 0), 30, at(101), AffinityKind::EngineBacked),
    );

    store.reap_expired(at(100));

    let mut announced = store.take_expired();
    announced.sort();
    assert_eq!(
        announced,
        vec![("gone-a".to_string(), 1), ("gone-b".to_string(), 2)]
    );
    assert!(store.take_expired().is_empty());
    assert_eq!(store.peek("live", at(100)), Some(worker(3, 0)));
}

#[test]
fn affinity_ends_exactly_when_its_time_to_live_has_passed() {
    let mut revisions = AffinityRevisions::new();
    let mut router = router();
    router.bind_at(
        "sess",
        worker(5, 1),
        Duration::from_secs(10),
        AffinityKind::RouterOnly,
        at(100),
        &mut revisions,
    );
    let last = Instant {
        nanos: 110 * SECOND - 1,
    };
    assert_eq!(router.peek_session_at("sess", last), Some(worker(5, 1)));
    assert_eq!(router.peek_session_at("sess", at(110)), None);
}

#[test]
fn store_that_does_not_announce_drops_expired_sessions_quietly() {
    let mut store = InMemoryAffinityStore::new();
    store.restore(
        "sess",
        entry(worker(17, 0), 30, at(99), AffinityKind::EngineBacked),
    );
    assert_eq!(store.peek_binding_token("sess", at(100)), None);
    assert!(store.entry("sess").is_none());
    assert!(store.take_expired().is_empty());
}

#[test]
fn revisions_differ_between_bindings_of_the_same_target() {
    let mut revisions = AffinityRevisions::new();
    let mut store = InMemoryAffinityStore::default();
    let mut bind = |store: &mut InMemoryAffinityStore| {
        store.put(
            "sess",
            worker(1, 0),
            Duration::from_secs(30),
            AffinityKind::RouterOnly,
            at(1),
            &mut revisions,
        )
    };
    let first = bind(&mut store);
    let second = bind(&mut store);
    assert_eq!(first.binding, second.binding);
    assert_ne!(first.revision, second.revision);
    assert!(!store.remove_if_token("sess", first));
    assert!(store.remove_if_token("sess", second));
    assert!(!store.remove_if_token("sess", second));
}

#[test]
fn commit_counts_stamps_and_restarts_the_time_to_live() {
    let mut revisions = AffinityRevisions::new();
    let mut router = router();
    let expected = router.bind_at(
        "sess",
        worker(1, 0),
        Duration::from_secs(10),
        AffinityKind::RouterOnly,
        at(100),
        &mut revisions,
    );
    let token = router
        .begin_rebind_at(
            "sess",
            expected,
            worker(2, 0),
            Duration::from_secs(20),
            at(101),
            &mut revisions,
        )
        .unwrap();
    assert_eq!(router.rebind_count("sess"), 0);
    assert!(router.commit_rebind_at("sess", token, at(105)));
    assert_eq!(router.rebind_count("sess"), 1);
    assert!(!router.commit_rebind_at("sess", token, at(105)));
    assert!(!router.rollback_rebind_at("sess", token, at(105)));
    assert_eq!(router.rebind_count("sess"), 1);

    let cooldown = Duration::from_secs(5);
    let last = Instant {
        nanos: 110 * SECOND - 1,
    };
    assert!(router.in_rebind_cooldown_at("sess", cooldown, last));
    assert!(!router.in_rebind_cooldown_at("sess", cooldown, at(110)));
    assert_eq!(router.peek_session_at("sess", at(124)), Some(worker(2, 0)));
    assert_eq!(router.peek_session_at("sess", at(125)), None);
}

#[test]
fn rollback_restarts_a_running_cooldown() {
    let mut revisions = AffinityRevisions::new();
    let mut router = router();
    let expected = router.bind_at(
        "sess",
        worker(1, 0),
        Duration::from_secs(100),
        AffinityKind::RouterOnly,
        at(100),
        &mut revisions,
    );
    let ttl = Duration::from_secs(100);
    let token = router
        .begin_rebind_at("sess", expected, worker(1, 1), ttl, at(100), &mut revisions)
        .unwrap();
    assert!(router.commit_rebind_at("sess", token, at(100)));
    let expected = router.peek_rebind_token_at("sess", at(104)).unwrap();
    let token = router
        .begin_rebind_at("sess", expected, worker(1, 0), ttl, at(104), &mut revisions)
        .unwrap();
    assert!(router.rollback_rebind_at("sess", token, at(104)));

    let cooldown = Duration::from_secs(5);
    assert!(router.in_rebind_cooldown_at("sess", cooldown, at(108)));
    assert!(!router.in_rebind_cooldown_at("sess", cooldown, at(109)));
    assert_eq!(router.rebind_count("sess"), 1);
    assert_eq!(router.peek_session_at("sess", at(108)), Some(worker(1, 1)));
}

#[test]
fn expired_binding_cannot_be_committed_but_can_be_rolled_back() {
    let mut revisions = AffinityRevisions::new();
    let mut router = router();
    let expected = router.bind_at(
        "sess",
        worker(1, 0),
        Duration::from_secs(10),
        AffinityKind::RouterOnly,
        at(100),
        &mut revisions,
    );
    let token = router
        .begin_rebind_at(
            "sess",
            expected,
            worker(1, 1),
            Duration::from_secs(10),
            at(100),
            &mut revisions,
        )
        .unwrap();
    assert_eq!(router.peek_binding_token_at("sess", at(105)), Some(expected));
    assert!(!router.commit_rebind_at("sess", token, at(110)));
    assert!(router.rollback_rebind_at("sess", token, at(110)));
    assert_eq!(router.rebind_count("sess"), 0);
}

#[test]
fn clock_counts_from_its_start_and_runs_on() {
    let router = router();
    let first = router.now();
    assert!(first.nanos < 3600 * SECOND);
    let mut second = router.now();
    while second.nanos < first.nanos + 1_000_000 {
        let next = router.now();
        assert!(next.nanos >= second.nanos);
        second = next;
    }
    assert!(second.nanos < 3600 * SECOND);
}

#[test]
fn token_of_another_store_is_refused() {
    let mut revisions = AffinityRevisions::new();
    let mut one = InMemoryAffinityStore::new();
    let mut other = InMemoryAffinityStore::new();
    let ttl = Duration::from_secs(10);
    let kind = AffinityKind::RouterOnly;
    let first = one.put("sess", worker(1, 0), ttl, kind, at(1), &mut revisions);
    let second = other.put("sess", worker(1, 0), ttl, kind, at(1), &mut revisions);
    assert_eq!(first.revision, 1);
    assert_eq!(second.revision, 2);
    assert_ne!(first, second);
    assert!(!other.remove_if_token("sess", first));
    assert!(other.remove_if_token("sess", second));
    assert!(one.remove_if_token("sess", first));
}

#[test]
fn refused_rebind_takes_no_revision() {
    let mut revisions = AffinityRevisions::new();
    let mut store = InMemoryAffinityStore::new();
    let ttl = Duration::from_secs(10);
    let kind = AffinityKind::RouterOnly;
    let token = store.put("sess", worker(1, 0), ttl, kind, at(1), &mut revisions);
    assert!(store
        .begin_rebind("other", token, worker(2, 0), ttl, at(1), &mut revisions)
        .is_none());
    let transition = store
        .begin_rebind("sess", token, worker(2, 0), ttl, at(1), &mut revisions)
        .unwrap();
    assert_eq!(transition.pending.revision, 2);
    assert_eq!(revisions.take(), 3);
}

#[test]
fn sessions_do_not_touch_each_other() {
    let mut revisions = AffinityRevisions::new();
    let mut router = router();
    let ttl = Duration::from_secs(10);
    let kind = AffinityKind::RouterOnly;
    router.bind_at("a", worker(1, 0), ttl, kind, at(100), &mut revisions);
    let b = router.bind_at("b", worker(2, 0), ttl, kind, at(100), &mut revisions);
    let token = router
        .begin_rebind_at("b", b, worker(2, 1), ttl, at(100), &mut revisions)
        .unwrap();
    assert!(router.commit_rebind_at("b", token, at(100)));
    router.unbind("b");
    assert_eq!(router.resolve_session_at("a", at(105)), Some(worker(1, 0)));
    assert_eq!(router.rebind_count("a"), 0);
    assert_eq!(router.rebind_count("b"), 1);
}
