use kusanagi::session::{
    get_current_stats, NotificationMessage, NotificationSession, SessionAction, SessionEvent,
    SessionPhase, StatsCounts,
};

fn counts(a: usize, p: usize, e: usize) -> StatsCounts {
    StatsCounts { argocd_issues: a, error_pods: p, warning_events: e }
}

fn active_session(now_ms: u64) -> NotificationSession {
    let mut s = NotificationSession::new(now_ms);
    let _ = s.started();
    s
}

#[test]
fn started_greets_and_polls_once() {
    let mut s = NotificationSession::new(0);
    assert_eq!(s.phase, SessionPhase::Connecting);
    let actions = s.started();
    assert_eq!(s.phase, SessionPhase::Active);
    assert_eq!(actions.len(), 2);
    match &actions[0] {
        SessionAction::Send(NotificationMessage::Connected { message }) => {
            assert_eq!(message, "Connected to Kusanagi notifications");
        }
        other => panic!("unexpected action: {:?}", other),
    }
    assert!(matches!(actions[1], SessionAction::RequestStats));
}

#[test]
fn silent_session_times_out_and_closes() {
    // Heartbeat interval 5s, timeout 10s: no liveness signal for 11s.
    let mut s = active_session(0);
    let actions = s.handle(SessionEvent::HeartbeatTick, 11_000, "t");
    assert_eq!(s.phase, SessionPhase::Closing);
    assert_eq!(actions.len(), 1);
    assert!(matches!(actions[0], SessionAction::CloseConnection));
    s.stopped();
    assert_eq!(s.phase, SessionPhase::Closed);
}

#[test]
fn session_answering_every_ping_stays_active() {
    let mut s = active_session(0);
    let mut now: u64 = 0;
    for _ in 0..100 {
        now += 5_000;
        let actions = s.handle(SessionEvent::HeartbeatTick, now, "t");
        assert_eq!(s.phase, SessionPhase::Active);
        assert_eq!(actions.len(), 1);
        assert!(matches!(actions[0], SessionAction::SendPing));
        let replies = s.handle(SessionEvent::Pong, now, "t");
        assert!(replies.is_empty());
        assert_eq!(s.hb, now);
    }
    assert_eq!(s.phase, SessionPhase::Active);
}

#[test]
fn stats_text_yields_exactly_one_stats_request() {
    let mut s = active_session(0);
    let actions = s.handle(
        SessionEvent::Text { text: "  stats ".to_string() },
        6_000,
        "t",
    );
    assert_eq!(actions.len(), 1);
    assert!(matches!(actions[0], SessionAction::RequestStats));
}

#[test]
fn stats_result_yields_exactly_one_stats_update() {
    let mut s = active_session(0);
    let before = s;
    let actions = s.handle(
        SessionEvent::StatsResult { counts: counts(3, 1, 7) },
        6_000,
        "t",
    );
    assert_eq!(actions.len(), 1);
    match &actions[0] {
        SessionAction::Send(NotificationMessage::StatsUpdate {
            argocd_issues,
            error_pods,
            warning_events,
        }) => {
            assert_eq!((*argocd_issues, *error_pods, *warning_events), (3, 1, 7));
        }
        other => panic!("unexpected action: {:?}", other),
    }
    // An explicit stats poll never changes the stored counts.
    assert_eq!(s, before);
}

#[test]
fn ping_text_answers_with_a_heartbeat() {
    let mut s = active_session(0);
    let actions = s.handle(
        SessionEvent::Text { text: "ping".to_string() },
        2_000,
        "2024-01-01T00:00:02Z",
    );
    assert_eq!(actions.len(), 1);
    match &actions[0] {
        SessionAction::Send(NotificationMessage::Heartbeat { timestamp }) => {
            assert_eq!(timestamp, "2024-01-01T00:00:02Z");
        }
        other => panic!("unexpected action: {:?}", other),
    }
    assert_eq!(s.hb, 2_000);
}

#[test]
fn other_text_only_refreshes_liveness() {
    let mut s = active_session(0);
    let actions = s.handle(SessionEvent::Text { text: "hello".to_string() }, 3_000, "t");
    assert!(actions.is_empty());
    assert_eq!(s.hb, 3_000);
}

#[test]
fn transport_ping_is_answered_with_its_payload() {
    let mut s = active_session(0);
    let actions = s.handle(SessionEvent::Ping { payload: vec![1, 2, 3] }, 4_000, "t");
    assert_eq!(actions.len(), 1);
    match &actions[0] {
        SessionAction::SendPong(p) => assert_eq!(p, &vec![1, 2, 3]),
        other => panic!("unexpected action: {:?}", other),
    }
    assert_eq!(s.hb, 4_000);
}

#[test]
fn poll_tick_asks_for_a_poll_and_leaves_liveness_alone() {
    let mut s = active_session(0);
    let actions = s.handle(SessionEvent::PollTick, 30_000, "t");
    assert_eq!(actions.len(), 1);
    assert!(matches!(actions[0], SessionAction::RequestPoll));
    assert_eq!(s.hb, 0);
}

#[test]
fn grown_counts_raise_one_alert_and_update_the_stored_counts() {
    let mut s = active_session(0);
    let actions = s.handle(
        SessionEvent::PollResult { counts: counts(3, 0, 0) },
        30_000,
        "2024-01-01T00:00:30Z",
    );
    assert_eq!(actions.len(), 1);
    match &actions[0] {
        SessionAction::Send(NotificationMessage::Alert {
            severity,
            title,
            message,
            source,
            timestamp,
        }) => {
            assert_eq!(severity, "warning");
            assert_eq!(title, "ArgoCD Apps Unhealthy");
            assert_eq!(message, "3 applications need attention");
            assert_eq!(source, "argocd");
            assert_eq!(timestamp, "2024-01-01T00:00:30Z");
        }
        other => panic!("unexpected action: {:?}", other),
    }
    assert_eq!(s.last_argocd_issues, 3);
    // The same counts again raise nothing.
    let again = s.handle(SessionEvent::PollResult { counts: counts(3, 0, 0) }, 60_000, "t");
    assert!(again.is_empty());
}

#[test]
fn dominant_dimension_is_the_largest_growth() {
    let mut s = active_session(0);
    let actions = s.handle(SessionEvent::PollResult { counts: counts(1, 5, 2) }, 30_000, "t");
    assert_eq!(actions.len(), 1);
    match &actions[0] {
        SessionAction::Send(NotificationMessage::Alert { severity, title, message, source, .. }) => {
            assert_eq!(severity, "error");
            assert_eq!(title, "Pods in Error");
            assert_eq!(message, "5 pods are in error state");
            assert_eq!(source, "pods");
        }
        other => panic!("unexpected action: {:?}", other),
    }
}

#[test]
fn warning_events_dimension_has_its_own_alert() {
    let mut s = active_session(0);
    let actions = s.handle(SessionEvent::PollResult { counts: counts(0, 0, 4) }, 30_000, "t");
    assert_eq!(actions.len(), 1);
    match &actions[0] {
        SessionAction::Send(NotificationMessage::Alert { title, message, source, .. }) => {
            assert_eq!(title, "Warning Events");
            assert_eq!(message, "4 warning events in the last hour");
            assert_eq!(source, "events");
        }
        other => panic!("unexpected action: {:?}", other),
    }
}

#[test]
fn shrinking_counts_raise_nothing_and_keep_the_stored_counts() {
    let mut s = active_session(0);
    let _ = s.handle(SessionEvent::PollResult { counts: counts(5, 5, 5) }, 30_000, "t");
    let actions = s.handle(SessionEvent::PollResult { counts: counts(2, 2, 2) }, 60_000, "t");
    assert!(actions.is_empty());
    assert_eq!(s.last_argocd_issues, 5);
}

#[test]
fn close_frame_tears_the_session_down() {
    let mut s = active_session(0);
    let actions = s.handle(SessionEvent::Close, 5_000, "t");
    assert_eq!(s.phase, SessionPhase::Closing);
    assert!(matches!(actions[0], SessionAction::CloseConnection));
    // A closed session drops everything.
    s.stopped();
    let after = s.handle(SessionEvent::Text { text: "stats".to_string() }, 6_000, "t");
    assert!(after.is_empty());
    assert_eq!(s.phase, SessionPhase::Closed);
}

#[test]
fn stats_counts_default_to_zero_on_failed_polls() {
    let c = get_current_stats(Some(2), None, Some(9));
    assert_eq!(c, counts(2, 0, 9));
    let all_failed = get_current_stats(None, None, None);
    assert_eq!(all_failed, counts(0, 0, 0));
}
