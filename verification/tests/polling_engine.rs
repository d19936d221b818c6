use elevation_manager::auth::AuthState;
use elevation_manager::config::AppConfig;
use elevation_manager::gateway::{ApiClient, GatewayError};
use elevation_manager::polling::{
    select_newest, surface_limit, BackoffState, CountOutcome, EnginePhase, ListOutcome,
    PollAction, PollPolicy, PollingEngine,
};

fn transport() -> GatewayError {
    GatewayError::TransportError { message: "connection refused".to_string() }
}

fn fail_cycle(engine: &mut PollingEngine) -> CountOutcome {
    assert_eq!(engine.tick(true), PollAction::FetchCount);
    engine.on_count_result(Err(transport()))
}

#[test]
fn new_engine_is_idle_at_baseline() {
    let engine = PollingEngine::new();
    let state = engine.snapshot();
    assert_eq!(state.phase, EnginePhase::Idle);
    assert_eq!(state.cursor.last_unread, 0);
    assert_eq!(state.backoff.consecutive_error_count, 0);
    assert_eq!(state.backoff.consecutive_success_count, 0);
    assert_eq!(state.backoff.current_delay, 10);
    assert_eq!(state.policy, PollPolicy::standard());
}

#[test]
fn standard_policy_numbers() {
    let p = PollPolicy::standard();
    assert_eq!(p.idle_interval_secs, 10);
    assert_eq!(p.poll_interval_secs, 30);
    assert_eq!(p.error_threshold, 5);
    assert_eq!(p.initial_backoff_secs, 10);
    assert_eq!(p.max_backoff_secs, 300);
    assert_eq!(p.success_streak, 3);
    assert!(p.is_valid());
}

#[test]
fn unusable_policy_is_refused() {
    let mut p = PollPolicy::standard();
    p.initial_backoff_secs = 0;
    assert!(!p.is_valid());
    assert!(PollingEngine::with_policy(p).is_none());
    let mut q = PollPolicy::standard();
    q.max_backoff_secs = 5;
    assert!(PollingEngine::with_policy(q).is_none());
    let mut r = PollPolicy::standard();
    r.success_streak = 0;
    assert!(PollingEngine::with_policy(r).is_none());
    assert!(PollingEngine::with_policy(PollPolicy::standard()).is_some());
}

#[test]
fn token_absent_fails_unauthenticated_and_is_not_counted() {
    let client = ApiClient::new(AppConfig::new(None, None));
    let auth = AuthState::new();
    let planned = client.get(&auth, "/notifications/count");
    assert!(matches!(planned, Err(GatewayError::Unauthenticated)));

    let mut engine = PollingEngine::new();
    assert_eq!(engine.tick(false), PollAction::Sleep { seconds: 10 });
    assert_eq!(engine.phase(), EnginePhase::Idle);
    assert_eq!(engine.error_count(), 0);

    let outcome = engine.on_count_result(Err(GatewayError::Unauthenticated));
    assert_eq!(outcome.publish_unread, None);
    assert_eq!(outcome.surface_limit, 0);
    assert_eq!(outcome.next, PollAction::Sleep { seconds: 30 });
    assert_eq!(engine.error_count(), 0);
    assert_eq!(engine.current_delay(), 10);
}

#[test]
fn six_transport_failures_back_off_and_double_up_to_the_cap() {
    let mut engine = PollingEngine::new();
    for k in 1..=6u32 {
        let outcome = fail_cycle(&mut engine);
        assert_eq!(outcome.next, PollAction::Sleep { seconds: 30 });
        assert_eq!(engine.error_count(), k);
        assert_eq!(engine.current_delay(), 10);
        assert_eq!(engine.phase(), EnginePhase::Polling);
    }
    // first backoff round: the initial delay
    assert_eq!(engine.tick(true), PollAction::Sleep { seconds: 10 });
    assert_eq!(engine.phase(), EnginePhase::BackingOff);
    assert_eq!(engine.current_delay(), 10);
    assert_eq!(engine.error_count(), 6);

    // the wake-up doubles the delay, clears the errors and polls again
    let expected = [20u64, 40, 80, 160, 300, 300, 300];
    for delay in expected {
        assert_eq!(engine.tick(true), PollAction::FetchCount);
        assert_eq!(engine.phase(), EnginePhase::Polling);
        assert_eq!(engine.error_count(), 0);
        assert_eq!(engine.current_delay(), delay);
        engine.on_count_result(Err(transport()));
        for _ in 0..5 {
            fail_cycle(&mut engine);
        }
        assert_eq!(engine.error_count(), 6);
        assert_eq!(engine.tick(true), PollAction::Sleep { seconds: delay });
        assert_eq!(engine.phase(), EnginePhase::BackingOff);
    }
}

#[test]
fn five_failures_stay_at_the_steady_cadence() {
    let mut engine = PollingEngine::new();
    for _ in 0..5 {
        let outcome = fail_cycle(&mut engine);
        assert_eq!(outcome.next, PollAction::Sleep { seconds: 30 });
    }
    assert_eq!(engine.error_count(), 5);
    assert_eq!(engine.tick(true), PollAction::FetchCount);
    assert_eq!(engine.current_delay(), 10);
}

#[test]
fn first_count_surfaces_nothing() {
    let mut engine = PollingEngine::new();
    assert_eq!(engine.tick(true), PollAction::FetchCount);
    let outcome = engine.on_count_result(Ok(7));
    assert_eq!(outcome.publish_unread, Some(7));
    assert_eq!(outcome.surface_limit, 0);
    assert_eq!(outcome.next, PollAction::Sleep { seconds: 30 });
    assert_eq!(engine.last_unread(), 7);
    assert_eq!(select_newest(vec![1, 2, 3], outcome.surface_limit), Vec::<i32>::new());
}

#[test]
fn growth_bounds_what_is_surfaced() {
    let mut engine = PollingEngine::new();
    engine.tick(true);
    engine.on_count_result(Ok(2));
    engine.tick(true);
    let outcome = engine.on_count_result(Ok(5));
    assert_eq!(outcome.publish_unread, Some(5));
    assert_eq!(outcome.surface_limit, 3);
    assert_eq!(outcome.next, PollAction::FetchList);
    assert_eq!(engine.pending_unread(), Some(5));
    assert_eq!(engine.last_unread(), 2);
    let listed = engine.on_list_result(Ok(5));
    assert_eq!(
        listed,
        ListOutcome { surfaced: 3, refreshed: true, next: PollAction::Sleep { seconds: 30 } }
    );
    assert_eq!(engine.last_unread(), 5);
    assert_eq!(engine.pending_unread(), None);
    // list longer than the growth: the three newest
    assert_eq!(select_newest(vec![50, 40, 30, 20, 10], 3), vec![50, 40, 30]);
    // list shorter than the growth: all of it
    assert_eq!(select_newest(vec![50, 40], 3), vec![50, 40]);
    // list exactly as long
    assert_eq!(select_newest(vec![50, 40, 30], 3), vec![50, 40, 30]);
    assert_eq!(select_newest(Vec::<u8>::new(), 3), Vec::<u8>::new());
}

#[test]
fn surfaced_is_the_smaller_of_growth_and_length() {
    for (len, surfaced) in [(0u64, 0u64), (1, 1), (3, 3), (4, 4), (5, 4), (u64::MAX, 4)] {
        let mut engine = PollingEngine::new();
        engine.on_count_result(Ok(6));
        assert_eq!(engine.on_count_result(Ok(10)).surface_limit, 4);
        assert_eq!(engine.on_list_result(Ok(len)).surfaced, surfaced);
    }
}

#[test]
fn list_failures_end_the_cycle() {
    let mut engine = PollingEngine::new();
    engine.on_count_result(Ok(6));
    engine.on_count_result(Ok(10));
    let failed = engine.on_list_result(Err(transport()));
    assert_eq!(
        failed,
        ListOutcome { surfaced: 0, refreshed: false, next: PollAction::Sleep { seconds: 30 } }
    );
    assert_eq!(engine.error_count(), 1);
    assert_eq!(engine.last_unread(), 6);
    assert_eq!(engine.pending_unread(), None);

    engine.on_count_result(Ok(10));
    let logged_out = engine.on_list_result(Err(GatewayError::Unauthenticated));
    assert_eq!(logged_out.surfaced, 0);
    assert!(!logged_out.refreshed);
    assert_eq!(engine.error_count(), 1);
    assert_eq!(engine.last_unread(), 6);
    assert_eq!(engine.pending_unread(), None);
}

#[test]
fn list_result_without_an_open_cycle_is_discarded() {
    let mut engine = PollingEngine::new();
    engine.on_count_result(Ok(6));
    let before = engine.snapshot();
    let stray = engine.on_list_result(Ok(9));
    assert_eq!(stray.surfaced, 0);
    assert!(!stray.refreshed);
    assert_eq!(engine.snapshot(), before);
    engine.on_list_result(Err(transport()));
    assert_eq!(engine.snapshot(), before);
}

#[test]
fn surface_limit_values() {
    assert_eq!(surface_limit(0, 7), 0);
    assert_eq!(surface_limit(2, 5), 3);
    assert_eq!(surface_limit(5, 5), 0);
    assert_eq!(surface_limit(5, 2), 0);
    assert_eq!(surface_limit(-3, 4), 0);
    assert_eq!(surface_limit(1, i64::MAX), (i64::MAX - 1) as u64);
}

#[test]
fn count_falling_then_growing() {
    let mut engine = PollingEngine::new();
    engine.on_count_result(Ok(4));
    let fell = engine.on_count_result(Ok(1));
    assert_eq!(fell.surface_limit, 0);
    assert_eq!(engine.last_unread(), 1);
    let grew = engine.on_count_result(Ok(2));
    assert_eq!(grew.surface_limit, 1);
    engine.on_list_result(Ok(2));
    assert_eq!(engine.last_unread(), 2);
    let reset = engine.on_count_result(Ok(0));
    assert_eq!(reset.surface_limit, 0);
    let after_reset = engine.on_count_result(Ok(9));
    assert_eq!(after_reset.surface_limit, 0);
    assert_eq!(after_reset.next, PollAction::Sleep { seconds: 30 });
}

#[test]
fn three_successes_reset_the_delay() {
    let mut engine = PollingEngine::new();
    for _ in 0..6 {
        fail_cycle(&mut engine);
    }
    assert_eq!(engine.tick(true), PollAction::Sleep { seconds: 10 });
    assert_eq!(engine.tick(true), PollAction::FetchCount);
    assert_eq!(engine.current_delay(), 20);
    engine.on_count_result(Ok(1));
    assert_eq!(engine.success_count(), 1);
    assert_eq!(engine.current_delay(), 20);
    engine.on_count_result(Ok(1));
    assert_eq!(engine.success_count(), 2);
    assert_eq!(engine.current_delay(), 20);
    engine.on_count_result(Ok(1));
    assert_eq!(engine.success_count(), 0);
    assert_eq!(engine.current_delay(), 10);
}

#[test]
fn failure_breaks_the_success_streak() {
    let mut engine = PollingEngine::new();
    for _ in 0..6 {
        fail_cycle(&mut engine);
    }
    engine.tick(true);
    engine.tick(true);
    assert_eq!(engine.current_delay(), 20);
    engine.on_count_result(Ok(1));
    engine.on_count_result(Ok(1));
    engine.on_count_result(Err(transport()));
    assert_eq!(engine.success_count(), 0);
    assert_eq!(engine.error_count(), 1);
    engine.on_count_result(Ok(1));
    assert_eq!(engine.error_count(), 0);
    assert_eq!(engine.current_delay(), 20);
}

#[test]
fn remote_and_decode_failures_are_counted() {
    let mut engine = PollingEngine::new();
    engine.on_count_result(Err(GatewayError::RemoteError { status: 500, body: "boom".to_string() }));
    assert_eq!(engine.error_count(), 1);
    engine.on_count_result(Err(GatewayError::DecodeError { message: "eof".to_string() }));
    assert_eq!(engine.error_count(), 2);
}

#[test]
fn logged_out_engine_idles_without_backing_off() {
    let mut engine = PollingEngine::new();
    for _ in 0..6 {
        fail_cycle(&mut engine);
    }
    assert_eq!(engine.tick(false), PollAction::Sleep { seconds: 10 });
    assert_eq!(engine.phase(), EnginePhase::Idle);
    assert_eq!(engine.error_count(), 6);
}

#[test]
fn cancelled_engine_stops_and_discards() {
    let mut engine = PollingEngine::new();
    engine.on_count_result(Ok(3));
    engine.cancel();
    assert_eq!(engine.phase(), EnginePhase::Cancelled);
    assert_eq!(engine.tick(true), PollAction::Stop);
    assert_eq!(engine.tick(false), PollAction::Stop);
    let outcome = engine.on_count_result(Ok(9));
    assert_eq!(outcome.next, PollAction::Stop);
    assert_eq!(outcome.publish_unread, None);
    assert_eq!(outcome.surface_limit, 0);
    assert_eq!(engine.last_unread(), 3);
    let listed = engine.on_list_result(Ok(4));
    assert_eq!(listed.next, PollAction::Stop);
    assert_eq!(listed.surfaced, 0);
    engine.on_count_result(Err(transport()));
    assert_eq!(engine.error_count(), 0);
}

#[test]
fn waking_from_backoff_without_token_ends_the_round_and_idles() {
    let mut engine = PollingEngine::new();
    for _ in 0..6 {
        fail_cycle(&mut engine);
    }
    assert_eq!(engine.tick(true), PollAction::Sleep { seconds: 10 });
    assert_eq!(engine.phase(), EnginePhase::BackingOff);
    assert_eq!(engine.tick(false), PollAction::Sleep { seconds: 10 });
    assert_eq!(engine.phase(), EnginePhase::Idle);
    assert_eq!(engine.current_delay(), 20);
    assert_eq!(engine.error_count(), 0);
    assert_eq!(engine.tick(true), PollAction::FetchCount);
}

#[test]
fn custom_policy_governs_the_engine() {
    let policy = PollPolicy {
        idle_interval_secs: 1,
        poll_interval_secs: 2,
        error_threshold: 0,
        initial_backoff_secs: 3,
        max_backoff_secs: 7,
        success_streak: 1,
    };
    let mut engine = PollingEngine::with_policy(policy).unwrap();
    assert_eq!(engine.snapshot().policy, policy);
    assert_eq!(engine.tick(false), PollAction::Sleep { seconds: 1 });
    assert_eq!(engine.tick(true), PollAction::FetchCount);
    assert_eq!(engine.on_count_result(Err(transport())).next, PollAction::Sleep { seconds: 2 });
    assert_eq!(engine.tick(true), PollAction::Sleep { seconds: 3 });
    assert_eq!(engine.tick(true), PollAction::FetchCount);
    assert_eq!(engine.current_delay(), 6);
    engine.on_count_result(Err(transport()));
    assert_eq!(engine.tick(true), PollAction::Sleep { seconds: 6 });
    assert_eq!(engine.tick(true), PollAction::FetchCount);
    assert_eq!(engine.current_delay(), 7);
    engine.on_count_result(Ok(0));
    assert_eq!(engine.current_delay(), 3);
    assert_eq!(engine.success_count(), 0);
}

#[test]
fn backoff_state_steps() {
    let policy = PollPolicy::standard();
    let mut state = BackoffState::new(&policy);
    assert_eq!(
        state,
        BackoffState { consecutive_error_count: 0, current_delay: 10, consecutive_success_count: 0 }
    );
    assert!(!state.is_exceeded(&policy));
    for _ in 0..5 {
        state.record_failure();
    }
    assert!(!state.is_exceeded(&policy));
    state.record_failure();
    assert!(state.is_exceeded(&policy));
    assert_eq!(state.consecutive_error_count, 6);
    state.finish_round(&policy);
    assert_eq!(
        state,
        BackoffState { consecutive_error_count: 0, current_delay: 20, consecutive_success_count: 0 }
    );
    state.record_success(&policy);
    state.record_success(&policy);
    assert_eq!(state.consecutive_success_count, 2);
    assert_eq!(state.current_delay, 20);
    state.record_success(&policy);
    assert_eq!(
        state,
        BackoffState { consecutive_error_count: 0, current_delay: 10, consecutive_success_count: 0 }
    );
    let mut high = BackoffState {
        consecutive_error_count: u32::MAX,
        current_delay: 200,
        consecutive_success_count: 1,
    };
    high.record_failure();
    assert_eq!(high.consecutive_error_count, u32::MAX);
    assert_eq!(high.consecutive_success_count, 0);
    high.finish_round(&policy);
    assert_eq!(high.current_delay, 300);
    high.finish_round(&policy);
    assert_eq!(high.current_delay, 300);
}
