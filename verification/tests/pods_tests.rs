use kusanagi::pods::{
    detect_pod_error, get_pods_status, ContainerState, ContainerStatusRecord, PodRecord,
};

fn container(name: &str, restarts: i32, state: ContainerState) -> ContainerStatusRecord {
    ContainerStatusRecord { name: name.to_string(), ready: false, restart_count: restarts, state }
}

fn pod(name: &str, phase: &str, containers: Vec<ContainerStatusRecord>) -> PodRecord {
    PodRecord {
        name: name.to_string(),
        namespace: "default".to_string(),
        phase: Some(phase.to_string()),
        status_reason: None,
        status_message: None,
        node_name: None,
        created_at: None,
        containers,
        init_containers: Vec::new(),
    }
}

#[test]
fn crash_looping_container_marks_the_pod() {
    let p = pod(
        "web",
        "Running",
        vec![container(
            "app",
            0,
            ContainerState::Waiting {
                reason: Some("CrashLoopBackOff".to_string()),
                message: Some("back-off 5m".to_string()),
            },
        )],
    );
    let (is_error, reason, message) = detect_pod_error(&p);
    assert!(is_error);
    assert_eq!(reason.as_deref(), Some("CrashLoopBackOff"));
    assert_eq!(message.as_deref(), Some("back-off 5m"));
}

#[test]
fn high_restart_count_is_synthesized() {
    let p = pod(
        "worker",
        "Running",
        vec![
            container("a", 3, ContainerState::Running),
            container("b", 5, ContainerState::Running),
        ],
    );
    let (is_error, reason, message) = detect_pod_error(&p);
    assert!(is_error);
    assert_eq!(reason.as_deref(), Some("HighRestartCount (8)"));
    assert_eq!(message, None);
}

#[test]
fn failed_phase_uses_top_level_reason() {
    let mut p = pod("old", "Failed", vec![]);
    p.status_reason = Some("Evicted".to_string());
    p.status_message = Some("node pressure".to_string());
    let (is_error, reason, message) = detect_pod_error(&p);
    assert!(is_error);
    assert_eq!(reason.as_deref(), Some("Evicted"));
    assert_eq!(message.as_deref(), Some("node pressure"));
}

#[test]
fn missing_phase_reads_unknown_and_is_an_error() {
    let mut p = pod("ghost", "Running", vec![]);
    p.phase = None;
    let (is_error, _, _) = detect_pod_error(&p);
    assert!(is_error);
}

#[test]
fn healthy_pod_is_not_an_error() {
    let p = pod("ok", "Running", vec![container("app", 2, ContainerState::Running)]);
    let (is_error, reason, message) = detect_pod_error(&p);
    assert!(!is_error);
    assert_eq!(reason, None);
    assert_eq!(message, None);
}

#[test]
fn init_container_errors_count_too() {
    let mut p = pod("setup", "Pending", vec![container("app", 0, ContainerState::Running)]);
    p.init_containers = vec![container(
        "init-db",
        0,
        ContainerState::Waiting { reason: Some("ImagePullBackOff".to_string()), message: None },
    )];
    let (is_error, reason, _) = detect_pod_error(&p);
    assert!(is_error);
    assert_eq!(reason.as_deref(), Some("ImagePullBackOff"));
}

#[test]
fn terminated_reason_does_not_trip_the_detector() {
    let p = pod(
        "done",
        "Running",
        vec![container(
            "app",
            0,
            ContainerState::Terminated { reason: Some("Error".to_string()), message: None },
        )],
    );
    let (is_error, _, _) = detect_pod_error(&p);
    assert!(!is_error);
}

#[test]
fn status_counts_phases_and_sorts_errors() {
    let bad_new = {
        let mut p = pod(
            "bad-new",
            "Running",
            vec![container(
                "a",
                7,
                ContainerState::Waiting {
                    reason: Some("CrashLoopBackOff".to_string()),
                    message: None,
                },
            )],
        );
        p.created_at = Some("2024-01-02T00:00:00Z".to_string());
        p
    };
    let bad_calm = {
        let mut p = pod("bad-calm", "Failed", vec![container("a", 1, ContainerState::Running)]);
        p.created_at = Some("2024-01-01T00:00:00Z".to_string());
        p
    };
    let good = pod("good", "Succeeded", vec![]);
    // 2024-01-03T00:00:00Z in epoch seconds.
    let now = 1_704_240_000i64;
    let r = get_pods_status(&vec![bad_calm, bad_new, good], now);
    assert_eq!(r.total_pods, 3);
    assert_eq!(r.running_pods, 1);
    assert_eq!(r.failed_pods, 1);
    assert_eq!(r.succeeded_pods, 1);
    assert_eq!(r.pending_pods, 0);
    assert_eq!(r.error_pods, 2);
    // Most restarts first.
    assert_eq!(r.pods_in_error[0].name, "bad-new");
    assert_eq!(r.pods_in_error[0].restart_count, 7);
    assert_eq!(r.pods_in_error[1].name, "bad-calm");
    // Ages computed against a fixed clock through the timestamp parser.
    assert_eq!(r.pods_in_error[0].age, "1d0h");
    assert_eq!(r.pods_in_error[0].age_seconds, 86_400);
    assert_eq!(r.pods_in_error[1].age_seconds, 172_800);
}
