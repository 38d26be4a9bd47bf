use kusanagi::cluster::{get_cluster_overview, NamespaceRecord};
use kusanagi::events::{get_events, EventRecord};
use kusanagi::nodes::{get_nodes_status, is_pod_in_error, NodeCondition, NodeRecord};
use kusanagi::pods::{ContainerState, ContainerStatusRecord, PodRecord};
use kusanagi::storage::{get_storage_status, parse_usage_line, parse_usage_lines, PvcRecord, UsageEntry};

// 2024-01-01T00:00:00Z in epoch seconds.
const T0: i64 = 1_704_067_200;

fn node(name: &str, ready: &str) -> NodeRecord {
    NodeRecord {
        name: name.to_string(),
        labels: vec![("role".to_string(), "worker".to_string())],
        architecture: Some("amd64".to_string()),
        os: None,
        kernel_version: None,
        kubelet_version: None,
        container_runtime: None,
        cpu_capacity: Some("4".to_string()),
        cpu_allocatable: None,
        memory_capacity: Some("16777216Ki".to_string()),
        memory_allocatable: None,
        pod_capacity: Some("110".to_string()),
        created_at: Some("2024-01-01T00:00:00Z".to_string()),
        conditions: vec![NodeCondition {
            condition_type: "Ready".to_string(),
            status: ready.to_string(),
            message: None,
        }],
    }
}

fn pod_on(node: &str, name: &str, bad: bool) -> PodRecord {
    let state = if bad {
        ContainerState::Waiting { reason: Some("CrashLoopBackOff".to_string()), message: None }
    } else {
        ContainerState::Running
    };
    PodRecord {
        name: name.to_string(),
        namespace: "default".to_string(),
        phase: Some("Running".to_string()),
        status_reason: None,
        status_message: None,
        node_name: Some(node.to_string()),
        created_at: None,
        containers: vec![ContainerStatusRecord {
            name: "app".to_string(),
            ready: true,
            restart_count: 0,
            state,
        }],
        init_containers: Vec::new(),
    }
}

#[test]
fn nodes_are_summarised_and_sorted_by_name() {
    let nodes = vec![node("zeta", "True"), node("alpha", "False")];
    let pods = vec![pod_on("zeta", "ok", false), pod_on("zeta", "looping", true)];
    let r = get_nodes_status(&nodes, &pods, T0 + 90_000);
    assert_eq!(r.total_nodes, 2);
    assert_eq!(r.ready_nodes, 1);
    assert_eq!(r.not_ready_nodes, 1);
    assert_eq!(r.nodes[0].name, "alpha");
    assert_eq!(r.nodes[0].status, "NotReady");
    assert_eq!(r.nodes[1].name, "zeta");
    assert_eq!(r.nodes[1].status, "Ready");
    assert_eq!(r.nodes[1].pod_count, 2);
    assert_eq!(r.nodes[1].pods_in_error, 1);
    assert_eq!(r.nodes[1].error_pod_names, vec!["looping".to_string()]);
    assert_eq!(r.nodes[1].memory_capacity, "16.0Gi");
    assert_eq!(r.nodes[1].architecture, "amd64");
    assert_eq!(r.nodes[0].os, "unknown");
    assert_eq!(r.nodes[1].uptime.as_deref(), Some("1d 1h"));
    assert_eq!(r.nodes[1].uptime_seconds, Some(90_000));
}

#[test]
fn node_view_runs_the_shared_detector() {
    // Summed restart counts above five flag the pod, exactly as the
    // cluster-wide view does.
    let mut p = pod_on("n", "spinny", false);
    p.containers.push(ContainerStatusRecord {
        name: "sidecar".to_string(),
        ready: true,
        restart_count: 3,
        state: ContainerState::Running,
    });
    p.containers[0].restart_count = 3;
    assert!(is_pod_in_error(&p));
    p.containers[1].restart_count = 2;
    assert!(!is_pod_in_error(&p));
}

#[test]
fn node_view_flags_init_container_faults() {
    let mut p = pod_on("n", "setup", false);
    p.init_containers = vec![ContainerStatusRecord {
        name: "init-db".to_string(),
        ready: false,
        restart_count: 0,
        state: ContainerState::Waiting {
            reason: Some("CrashLoopBackOff".to_string()),
            message: None,
        },
    }];
    assert!(is_pod_in_error(&p));
    // A reason outside the closed set does not flag it.
    p.init_containers = vec![ContainerStatusRecord {
        name: "init-db".to_string(),
        ready: false,
        restart_count: 0,
        state: ContainerState::Waiting {
            reason: Some("ContainerCreating".to_string()),
            message: None,
        },
    }];
    assert!(!is_pod_in_error(&p));
}

fn event(name: &str, ty: &str, seen: Option<&str>) -> EventRecord {
    EventRecord {
        name: Some(name.to_string()),
        namespace: None,
        event_type: Some(ty.to_string()),
        reason: Some("Reason".to_string()),
        message: Some("m".to_string()),
        involved_object_kind: Some("Pod".to_string()),
        involved_object_name: Some(name.to_string()),
        count: None,
        first_timestamp: None,
        last_timestamp: seen.map(|s| s.to_string()),
    }
}

#[test]
fn events_are_filtered_to_the_last_hour_and_warnings_come_first() {
    let fresh_normal = event("fresh-normal", "Normal", Some("2024-01-01T00:30:00Z"));
    let fresh_warning = event("fresh-warning", "Warning", Some("2024-01-01T00:10:00Z"));
    let stale = event("stale", "Warning", Some("2023-12-31T00:00:00Z"));
    let timeless = event("timeless", "Normal", None);
    // One hour into the day: the cutoff sits at midnight.
    let now = T0 + 3_600;
    let r = get_events(&vec![fresh_normal, stale, fresh_warning, timeless], now);
    assert_eq!(r.total_events, 3);
    assert_eq!(r.warning_count, 1);
    assert_eq!(r.normal_count, 2);
    assert_eq!(r.events[0].name, "fresh-warning");
    assert_eq!(r.events[0].age.as_deref(), Some("50m ago"));
    // Within a class the later-seen event comes first; absent timestamps sink.
    assert_eq!(r.events[1].name, "fresh-normal");
    assert_eq!(r.events[2].name, "timeless");
    assert_eq!(r.events[2].namespace, "default");
    assert_eq!(r.events[2].count, 1);
}

#[test]
fn usage_lines_parse_and_feed_the_storage_summary() {
    let line = "kubelet_volume_stats_used_bytes{namespace=\"media\",persistentvolumeclaim=\"library\"} 1024";
    let entry = parse_usage_line(line).unwrap();
    assert_eq!(entry.namespace, "media");
    assert_eq!(entry.claim, "library");
    assert_eq!(entry.used_bytes, 1024);

    assert!(parse_usage_line("some_other_metric{namespace=\"x\"} 5").is_none());
    assert!(parse_usage_line("kubelet_volume_stats_used_bytes{namespace=\"x\"} 5").is_none());
    assert!(
        parse_usage_line(
            "kubelet_volume_stats_used_bytes{namespace=\"x\",persistentvolumeclaim=\"y\"} 1.5e9"
        )
        .is_none()
    );

    let lines = vec![
        line.to_string(),
        "# HELP kubelet_volume_stats_used_bytes ...".to_string(),
        "kubelet_volume_stats_used_bytes{namespace=\"media\",persistentvolumeclaim=\"library\"} 2048"
            .to_string(),
    ];
    let entries = parse_usage_lines(&lines);
    assert_eq!(entries.len(), 2);

    let pvc = PvcRecord {
        name: Some("library".to_string()),
        namespace: Some("media".to_string()),
        phase: Some("Bound".to_string()),
        capacity: Some("10Gi".to_string()),
        storage_class: Some("fast".to_string()),
        access_modes: vec!["ReadWriteOnce".to_string()],
        volume_name: Some("pv-1".to_string()),
    };
    let unsampled = PvcRecord {
        name: Some("scratch".to_string()),
        namespace: Some("media".to_string()),
        phase: None,
        capacity: None,
        storage_class: None,
        access_modes: Vec::new(),
        volume_name: None,
    };
    let r = get_storage_status(&vec![pvc, unsampled], &entries);
    assert_eq!(r.pvc_count, 2);
    assert_eq!(r.pvc_total_capacity_bytes, 10 * 1024 * 1024 * 1024);
    // The later sample wins.
    assert_eq!(r.pvc_total_usage_bytes, 2048);
    assert_eq!(r.pvcs[0].used_bytes, Some(2048));
    assert_eq!(r.pvcs[0].capacity_bytes, 10 * 1024 * 1024 * 1024);
    assert_eq!(r.pvcs[1].status, "Unknown");
    assert_eq!(r.pvcs[1].used_bytes, None);
}

#[test]
fn usage_lookup_prefers_the_latest_sample() {
    let entries = vec![
        UsageEntry { namespace: "a".to_string(), claim: "x".to_string(), used_bytes: 1 },
        UsageEntry { namespace: "a".to_string(), claim: "x".to_string(), used_bytes: 7 },
    ];
    let r = kusanagi::storage::usage_lookup(&entries, "a", "x");
    assert_eq!(r, Some(7));
    assert_eq!(kusanagi::storage::usage_lookup(&entries, "b", "x"), None);
}

#[test]
fn cluster_overview_totals_and_renders_capacity() {
    let ns = NamespaceRecord {
        name: Some("media".to_string()),
        phase: Some("Active".to_string()),
        labels: Vec::new(),
    };
    let pvc = |name: &str, cap: &str| PvcRecord {
        name: Some(name.to_string()),
        namespace: Some("media".to_string()),
        phase: Some("Bound".to_string()),
        capacity: Some(cap.to_string()),
        storage_class: None,
        access_modes: Vec::new(),
        volume_name: None,
    };
    let r = get_cluster_overview(&vec![ns], &vec![pvc("a", "1Gi"), pvc("b", "512Mi")]);
    assert_eq!(r.namespace_count, 1);
    assert_eq!(r.namespaces[0].status, "Active");
    assert_eq!(r.pvc_count, 2);
    assert_eq!(r.pvcs[0].capacity_bytes, 1024 * 1024 * 1024);
    assert_eq!(r.pvc_total_capacity, "1.5Gi");

    let small = get_cluster_overview(&Vec::new(), &vec![pvc("c", "100")]);
    assert_eq!(small.pvc_total_capacity, "100 bytes");
}
