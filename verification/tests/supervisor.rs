use geyser_ingest::backoff::{BackoffPolicy, RetryState};
use geyser_ingest::config::Settings;
use geyser_ingest::error::{ConfigError, SessionError, SessionOutcome, TransportError};
use geyser_ingest::session::PersistPolicy;
use geyser_ingest::subscription::{
    pong_request, subscribe_request, Commitment, OutboundRequest, SubscriptionSpec,
    TransactionFilter, PING_ID,
};
use geyser_ingest::supervisor::{
    StopReason, Supervisor, SupervisorAction, SupervisorEvent, SupervisorPhase,
};

fn failed() -> SupervisorEvent {
    SupervisorEvent::SessionEnded(SessionOutcome::Transient(SessionError::Transport(
        TransportError::Receive,
    )))
}

fn running(policy: BackoffPolicy) -> Supervisor {
    let mut supervisor = Supervisor::new(policy).unwrap();
    assert_eq!(supervisor.step(SupervisorEvent::Start), SupervisorAction::Connect);
    assert_eq!(supervisor.step(SupervisorEvent::Connected), SupervisorAction::RunSession);
    supervisor
}

fn wait_after_failure(supervisor: &mut Supervisor) -> u64 {
    let millis = match supervisor.step(failed()) {
        SupervisorAction::Wait { millis } => millis,
        other => panic!("no wait: {:?}", other),
    };
    assert_eq!(supervisor.step(SupervisorEvent::WaitElapsed), SupervisorAction::Connect);
    assert_eq!(supervisor.step(SupervisorEvent::Connected), SupervisorAction::RunSession);
    millis
}

#[test]
fn default_backoff_policy() {
    assert_eq!(
        BackoffPolicy::default(),
        BackoffPolicy { initial_ms: 500, factor_num: 3, factor_den: 2, max_ms: 60_000, max_retries: None }
    );
    assert!(BackoffPolicy::default().is_wf());
}

#[test]
fn backoff_policy_is_checked() {
    assert_eq!(
        BackoffPolicy::new(500, 3, 2, 60_000, None),
        Ok(BackoffPolicy::default())
    );
    assert_eq!(BackoffPolicy::new(500, 3, 0, 60_000, None), Err(ConfigError::InvalidBackoff));
    assert_eq!(BackoffPolicy::new(500, 1, 2, 60_000, None), Err(ConfigError::InvalidBackoff));
    assert_eq!(BackoffPolicy::new(60_001, 3, 2, 60_000, None), Err(ConfigError::InvalidBackoff));
    assert!(BackoffPolicy::new(0, 1, 1, 0, Some(0)).is_ok());
}

#[test]
fn next_wait_grows_by_the_factor_and_rounds_down() {
    let policy = BackoffPolicy::default();
    assert_eq!(policy.next_wait(500), 750);
    assert_eq!(policy.next_wait(750), 1125);
    assert_eq!(policy.next_wait(1125), 1687);
    assert_eq!(policy.next_wait(40_000), 60_000);
    assert_eq!(policy.next_wait(43_222), 60_000);
    assert_eq!(policy.next_wait(60_000), 60_000);
    assert_eq!(policy.next_wait(0), 0);
}

#[test]
fn next_wait_does_not_overflow() {
    let policy = BackoffPolicy::new(1, u64::MAX, 1, u64::MAX, None).unwrap();
    assert_eq!(policy.next_wait(u64::MAX), u64::MAX);
    assert_eq!(policy.next_wait(2), u64::MAX);
    assert_eq!(policy.next_wait(1), u64::MAX);
    let steady = BackoffPolicy::new(7, 5, 5, 100, None).unwrap();
    assert_eq!(steady.next_wait(7), 7);
}

#[test]
fn first_attempt_has_no_wait() {
    let mut supervisor = Supervisor::new(BackoffPolicy::default()).unwrap();
    assert_eq!(supervisor.phase(), SupervisorPhase::Idle);
    assert_eq!(supervisor.retries(), 0);
    assert_eq!(supervisor.step(SupervisorEvent::Start), SupervisorAction::Connect);
    assert_eq!(supervisor.phase(), SupervisorPhase::Connecting);
    assert_eq!(supervisor.retries(), 0);
}

#[test]
fn waits_after_failed_sessions_follow_the_schedule() {
    let mut supervisor = running(BackoffPolicy::default());
    let expected = [
        500u64, 750, 1125, 1687, 2530, 3795, 5692, 8538, 12807, 19210, 28815, 43222, 60_000, 60_000,
        60_000,
    ];
    for (position, want) in expected.iter().enumerate() {
        assert_eq!(supervisor.retries(), position as u64);
        assert_eq!(supervisor.next_wait_ms(), *want);
        assert_eq!(wait_after_failure(&mut supervisor), *want);
    }
}

#[test]
fn waits_never_shrink_and_stay_under_the_cap() {
    let policy = BackoffPolicy::new(3, 7, 5, 1000, None).unwrap();
    let mut supervisor = running(policy);
    let mut last = 0u64;
    for _ in 0..40 {
        let wait = wait_after_failure(&mut supervisor);
        assert!(wait >= last);
        assert!(wait <= 1000);
        last = wait;
    }
    assert_eq!(last, 1000);
}

#[test]
fn failed_connection_waits_too() {
    let mut supervisor = Supervisor::new(BackoffPolicy::default()).unwrap();
    supervisor.step(SupervisorEvent::Start);
    assert_eq!(
        supervisor.step(SupervisorEvent::ConnectFailed),
        SupervisorAction::Wait { millis: 500 }
    );
    assert_eq!(supervisor.phase(), SupervisorPhase::Waiting);
    assert_eq!(supervisor.step(SupervisorEvent::WaitElapsed), SupervisorAction::Connect);
    assert_eq!(
        supervisor.step(SupervisorEvent::ConnectFailed),
        SupervisorAction::Wait { millis: 750 }
    );
    assert_eq!(supervisor.retries(), 2);
}

#[test]
fn clean_end_reconnects_at_once_and_keeps_the_position() {
    let mut supervisor = running(BackoffPolicy::default());
    assert_eq!(wait_after_failure(&mut supervisor), 500);
    assert_eq!(
        supervisor.step(SupervisorEvent::SessionEnded(SessionOutcome::Clean)),
        SupervisorAction::Connect
    );
    assert_eq!(supervisor.retries(), 1);
    assert_eq!(supervisor.step(SupervisorEvent::Connected), SupervisorAction::RunSession);
    assert_eq!(wait_after_failure(&mut supervisor), 750);
}

#[test]
fn schedule_is_not_reset_by_a_session_that_ran() {
    let mut supervisor = running(BackoffPolicy::default());
    assert_eq!(wait_after_failure(&mut supervisor), 500);
    assert_eq!(wait_after_failure(&mut supervisor), 750);
    assert_eq!(wait_after_failure(&mut supervisor), 1125);
    assert_eq!(supervisor.retries(), 3);
}

#[test]
fn supervisor_gives_up_at_the_limit() {
    let policy = BackoffPolicy::new(10, 2, 1, 100, Some(2)).unwrap();
    let mut supervisor = running(policy);
    assert_eq!(wait_after_failure(&mut supervisor), 10);
    assert_eq!(wait_after_failure(&mut supervisor), 20);
    assert_eq!(supervisor.step(failed()), SupervisorAction::Stop(StopReason::RetriesExhausted));
    assert_eq!(supervisor.phase(), SupervisorPhase::Stopped(StopReason::RetriesExhausted));
    assert_eq!(
        supervisor.step(SupervisorEvent::WaitElapsed),
        SupervisorAction::Stop(StopReason::RetriesExhausted)
    );
}

#[test]
fn supervisor_with_no_retries_allowed() {
    let policy = BackoffPolicy::new(10, 2, 1, 100, Some(0)).unwrap();
    let mut supervisor = running(policy);
    assert_eq!(supervisor.step(failed()), SupervisorAction::Stop(StopReason::RetriesExhausted));
}

#[test]
fn supervisor_stops_when_asked() {
    let mut supervisor = running(BackoffPolicy::default());
    assert_eq!(
        supervisor.step(SupervisorEvent::Shutdown),
        SupervisorAction::Stop(StopReason::Shutdown)
    );
    assert_eq!(supervisor.step(SupervisorEvent::Start), SupervisorAction::Stop(StopReason::Shutdown));
    assert_eq!(supervisor.step(failed()), SupervisorAction::Stop(StopReason::Shutdown));
}

#[test]
fn supervisor_stops_on_what_was_not_asked_for() {
    let mut supervisor = Supervisor::new(BackoffPolicy::default()).unwrap();
    assert_eq!(
        supervisor.step(SupervisorEvent::Connected),
        SupervisorAction::Stop(StopReason::OutOfOrder)
    );
    let mut waiting = running(BackoffPolicy::default());
    waiting.step(failed());
    assert_eq!(waiting.step(failed()), SupervisorAction::Stop(StopReason::OutOfOrder));
}

#[test]
fn supervisor_refuses_a_schedule_that_is_none() {
    let broken = BackoffPolicy {
        initial_ms: 500,
        factor_num: 1,
        factor_den: 0,
        max_ms: 60_000,
        max_retries: None,
    };
    assert_eq!(Supervisor::new(broken).err(), Some(ConfigError::InvalidBackoff));
    let supervisor = Supervisor::new(BackoffPolicy::default()).unwrap();
    assert_eq!(supervisor.policy(), BackoffPolicy::default());
}

#[test]
fn commitment_levels_on_the_wire() {
    assert_eq!(Commitment::Processed.wire_value(), 0);
    assert_eq!(Commitment::Confirmed.wire_value(), 1);
    assert_eq!(Commitment::Finalized.wire_value(), 2);
    assert_eq!(Commitment::default(), Commitment::Finalized);
    assert_eq!(Commitment::or_default(None), Commitment::Finalized);
    assert_eq!(Commitment::or_default(Some(Commitment::Processed)), Commitment::Processed);
}

#[test]
fn subscribe_request_registers_one_filter() {
    let spec = SubscriptionSpec::new(
        vec!["AccountA".to_string(), "AccountB".to_string()],
        Some(Commitment::Confirmed),
    );
    let request = subscribe_request(&spec);
    assert_eq!(
        request,
        OutboundRequest::Subscribe {
            filter_name: "client".to_string(),
            filter: TransactionFilter {
                vote: Some(false),
                failed: Some(false),
                signature: None,
                account_include: vec!["AccountA".to_string(), "AccountB".to_string()],
                account_exclude: vec![],
                account_required: vec![],
            },
            commitment: 1,
        }
    );
    assert_eq!(request.duplicate(), request);
}

#[test]
fn subscribe_request_without_accounts() {
    let request = subscribe_request(&SubscriptionSpec::new(vec![], None));
    match request {
        OutboundRequest::Subscribe { filter, commitment, .. } => {
            assert!(filter.account_include.is_empty());
            assert_eq!(commitment, 2);
        }
        other => panic!("not a subscription: {:?}", other),
    }
}

#[test]
fn pong_carries_the_fixed_identifier() {
    assert_eq!(PING_ID, 1);
    assert_eq!(pong_request(), OutboundRequest::Ping { id: 1 });
    assert_eq!(pong_request().duplicate(), pong_request());
}

#[test]
fn settings_are_checked_once() {
    let settings = Settings::check(
        "http://127.0.0.1:10000".to_string(),
        Some("token".to_string()),
        Some("postgres://localhost/txns".to_string()),
        vec!["AccountA".to_string()],
        None,
        BackoffPolicy::default(),
        PersistPolicy::default(),
    )
    .unwrap();
    assert_eq!(settings.endpoint, "http://127.0.0.1:10000");
    assert_eq!(settings.x_token, Some("token".to_string()));
    assert_eq!(settings.store_url, "postgres://localhost/txns");
    assert_eq!(
        settings.subscription,
        SubscriptionSpec { accounts: vec!["AccountA".to_string()], commitment: Commitment::Finalized }
    );
    assert_eq!(settings.backoff, BackoffPolicy::default());
    assert_eq!(settings.persist, PersistPolicy { max_attempts: 3, escalate: false });
}

#[test]
fn settings_without_a_store_are_refused() {
    let missing = Settings::check(
        "http://127.0.0.1:10000".to_string(),
        None,
        None,
        vec![],
        None,
        BackoffPolicy::default(),
        PersistPolicy::default(),
    );
    assert_eq!(missing, Err(ConfigError::MissingStoreUrl));
    let empty = Settings::check(
        "http://127.0.0.1:10000".to_string(),
        None,
        Some(String::new()),
        vec![],
        None,
        BackoffPolicy::default(),
        PersistPolicy::default(),
    );
    assert_eq!(empty, Err(ConfigError::MissingStoreUrl));
}

#[test]
fn settings_failures_in_order() {
    let broken = BackoffPolicy { initial_ms: 2, factor_num: 1, factor_den: 1, max_ms: 1, max_retries: None };
    assert_eq!(
        Settings::check(String::new(), None, None, vec![], None, broken, PersistPolicy::default()),
        Err(ConfigError::MissingEndpoint)
    );
    assert_eq!(
        Settings::check("e".to_string(), None, None, vec![], None, broken, PersistPolicy::default()),
        Err(ConfigError::MissingStoreUrl)
    );
    assert_eq!(
        Settings::check(
            "e".to_string(),
            None,
            Some("s".to_string()),
            vec![],
            Some(Commitment::Processed),
            broken,
            PersistPolicy::default()
        ),
        Err(ConfigError::InvalidBackoff)
    );
}

#[test]
fn cancelled_session_stops_the_supervisor() {
    let mut supervisor = running(BackoffPolicy::default());
    assert_eq!(
        supervisor.step(SupervisorEvent::SessionEnded(SessionOutcome::Transient(
            SessionError::Cancelled
        ))),
        SupervisorAction::Stop(StopReason::Shutdown)
    );
    assert_eq!(supervisor.retries(), 0);
}

#[test]
fn retry_state_walks_the_schedule() {
    let mut state = RetryState::new(BackoffPolicy::default()).unwrap();
    assert_eq!(state.position(), 0);
    assert_eq!(state.next_wait_ms(), 500);
    assert!(!state.is_exhausted());
    assert_eq!(state.advance(), 500);
    assert_eq!(state.advance(), 750);
    assert_eq!(state.advance(), 1125);
    assert_eq!(state.position(), 3);
    assert_eq!(state.next_wait_ms(), 1687);
    assert_eq!(state.policy(), BackoffPolicy::default());
}

#[test]
fn retry_state_knows_its_limit() {
    let policy = BackoffPolicy::new(10, 3, 1, 50, Some(3)).unwrap();
    let mut state = RetryState::new(policy).unwrap();
    assert_eq!(state.advance(), 10);
    assert_eq!(state.advance(), 30);
    assert!(!state.is_exhausted());
    assert_eq!(state.advance(), 50);
    assert!(state.is_exhausted());
    assert_eq!(state.next_wait_ms(), 50);
    let broken = BackoffPolicy { initial_ms: 9, factor_num: 1, factor_den: 1, max_ms: 8, max_retries: None };
    assert_eq!(RetryState::new(broken).err(), Some(ConfigError::InvalidBackoff));
}
