use kusanagi::alertmanager::{get_active_alerts, AmAlertRecord};
use kusanagi::apps::{get_apps_with_resources, AppResourceRecord, PodResources, PvcResources};
use kusanagi::backups::{get_backups_status, get_jobs_for_cronjob, CronJobRecord, JobRecord};
use kusanagi::chat::{parse_command, ChatCommand};
use kusanagi::cilium::{detect_anomalies, export_flows_csv, export_matrix_csv, get_mock_flows};
use kusanagi::mcp::{
    format_cilium_policies, format_k8s_resources, format_trivy_vulnerabilities, CiliumPolicy,
    CiliumPolicySummary, K8sResourceSummary, TrivyImageReport, TrivyVulnerabilitySummary,
};

// 2024-01-01T00:00:00Z in epoch seconds.
const T0: i64 = 1_704_067_200;

fn am(name: &str, severity: &str, state: &str, starts: &str) -> AmAlertRecord {
    AmAlertRecord {
        labels: vec![
            ("alertname".to_string(), name.to_string()),
            ("severity".to_string(), severity.to_string()),
            ("namespace".to_string(), "prod".to_string()),
        ],
        annotations: vec![("summary".to_string(), "something burns".to_string())],
        starts_at: starts.to_string(),
        ends_at: String::new(),
        fingerprint: name.to_string(),
        state: state.to_string(),
    }
}

#[test]
fn alerts_group_by_severity_and_sort_most_recent_first() {
    let records = vec![
        am("OldCrit", "critical", "firing", "2024-01-01T00:00:00Z"),
        am("Warn", "warning", "pending", "2024-01-01T02:00:00Z"),
        am("NewCrit", "critical", "firing", "2024-01-01T01:00:00Z"),
        am("Note", "info", "firing", "2024-01-01T03:00:00Z"),
    ];
    let r = get_active_alerts(&records, T0);
    assert_eq!(r.total, 4);
    assert_eq!(r.firing, 3);
    assert_eq!(r.pending, 1);
    assert_eq!(r.critical.len(), 2);
    assert_eq!(r.warning.len(), 1);
    assert_eq!(r.info.len(), 1);
    assert_eq!(r.critical[0].name, "NewCrit");
    assert_eq!(r.critical[1].name, "OldCrit");
    assert_eq!(r.critical[0].summary, "something burns");
    assert_eq!(r.critical[0].namespace.as_deref(), Some("prod"));
}

#[test]
fn alert_defaults_fill_missing_labels() {
    let bare = AmAlertRecord {
        labels: Vec::new(),
        annotations: Vec::new(),
        starts_at: "bad".to_string(),
        ends_at: String::new(),
        fingerprint: "f".to_string(),
        state: "pending".to_string(),
    };
    let r = get_active_alerts(&vec![bare], T0);
    assert_eq!(r.info.len(), 1);
    assert_eq!(r.info[0].name, "Unknown");
    assert_eq!(r.info[0].severity, "info");
    assert_eq!(r.info[0].summary, "No summary");
}

fn job(name: &str, owner: &str, outcome: (i32, i32, i32), start: &str) -> JobRecord {
    JobRecord {
        name: Some(name.to_string()),
        namespace: Some("backup".to_string()),
        cronjob_owners: vec![owner.to_string()],
        active: Some(outcome.0),
        succeeded: Some(outcome.1),
        failed: Some(outcome.2),
        start_time: Some(start.to_string()),
        completion_time: None,
    }
}

#[test]
fn recent_runs_are_latest_first_and_capped_at_five() {
    let mut jobs = Vec::new();
    for day in 1..=7 {
        jobs.push(job(
            &format!("nightly-{day}"),
            "nightly",
            (0, 1, 0),
            &format!("2024-01-0{day}T00:00:00Z"),
        ));
    }
    jobs.push(job("other", "weekly", (0, 1, 0), "2024-01-09T00:00:00Z"));
    let recent = get_jobs_for_cronjob("nightly", "backup", &jobs, T0);
    assert_eq!(recent.len(), 5);
    assert_eq!(recent[0].name, "nightly-7");
    assert_eq!(recent[4].name, "nightly-3");
    assert_eq!(recent[0].status, "Succeeded");
}

#[test]
fn backups_tally_runs_and_sort_schedules() {
    let cj = |name: &str, ns: &str| CronJobRecord {
        name: Some(name.to_string()),
        namespace: Some(ns.to_string()),
        schedule: Some("0 2 * * *".to_string()),
        last_schedule_time: Some("2024-01-01T00:00:00Z".to_string()),
        active_count: 0,
        suspend: None,
    };
    let jobs = vec![
        job("r", "a", (1, 0, 0), "2024-01-01T00:00:00Z"),
        job("s", "a", (0, 1, 0), "2024-01-01T00:00:00Z"),
        job("f", "a", (0, 0, 1), "2024-01-01T00:00:00Z"),
    ];
    let r = get_backups_status(&vec![cj("zzz", "alpha"), cj("aaa", "beta"), cj("mmm", "alpha")], &jobs, T0 + 45);
    assert_eq!(r.total_cronjobs, 3);
    assert_eq!(r.active_jobs, 1);
    assert_eq!(r.succeeded_jobs, 1);
    assert_eq!(r.failed_jobs, 1);
    assert_eq!(r.cronjobs[0].namespace, "alpha");
    assert_eq!(r.cronjobs[0].name, "mmm");
    assert_eq!(r.cronjobs[1].name, "zzz");
    assert_eq!(r.cronjobs[2].namespace, "beta");
    assert_eq!(r.cronjobs[0].last_schedule_age.as_deref(), Some("45s"));
}

#[test]
fn app_resources_sum_by_namespace_and_sort_by_limit() {
    let app = |name: &str, ns: &str| AppResourceRecord {
        name: Some(name.to_string()),
        dest_namespace: Some(ns.to_string()),
        health_status: Some("Healthy".to_string()),
        sync_status: Some("Synced".to_string()),
    };
    let pods = vec![
        PodResources {
            namespace: "small".to_string(),
            memory_requests: vec!["128Mi".to_string()],
            memory_limits: vec!["256Mi".to_string()],
        },
        PodResources {
            namespace: "big".to_string(),
            memory_requests: vec!["1Gi".to_string(), "1Gi".to_string()],
            memory_limits: vec!["2Gi".to_string(), "2Gi".to_string()],
        },
    ];
    let pvcs = vec![PvcResources {
        namespace: "big".to_string(),
        storage_request: Some("10Gi".to_string()),
    }];
    let r = get_apps_with_resources(
        &vec![app("tiny", "small"), app("heavy", "big")],
        &pods,
        &pvcs,
        "https://argocd.example",
    );
    assert_eq!(r.total_apps, 2);
    assert_eq!(r.apps[0].name, "heavy");
    assert_eq!(r.apps[0].pod_count, 1);
    assert_eq!(r.apps[0].ram_request, "2.0Gi");
    assert_eq!(r.apps[0].ram_limit, "4.0Gi");
    assert_eq!(r.apps[0].pvc_count, 1);
    assert_eq!(r.apps[0].pvc_size, "10.0Gi");
    assert_eq!(r.apps[0].argocd_url, "https://argocd.example/applications/heavy");
    assert_eq!(r.apps[1].name, "tiny");
    assert_eq!(r.apps[1].ram_limit, "256Mi");
}

#[test]
fn chat_commands_classify() {
    assert_eq!(parse_command("/help"), ChatCommand::Help);
    assert_eq!(parse_command("  /STATUS "), ChatCommand::Status);
    assert_eq!(parse_command("/pvcs"), ChatCommand::Pvcs);
    assert_eq!(parse_command("/frobnicate"), ChatCommand::Unknown);
    assert_eq!(parse_command("how is the cluster?"), ChatCommand::Query);
    assert_eq!(parse_command(""), ChatCommand::Query);
}

#[test]
fn k8s_resource_table_renders_exactly() {
    let s = format_k8s_resources(&K8sResourceSummary {
        deployments: 3,
        statefulsets: 1,
        daemonsets: 2,
        services: 14,
        configmaps: 30,
        secrets: -1,
    });
    let expected = "## 📦 Kubernetes Resources\n\n| Resource | Count |\n|----------|-------|\n\
        | Deployments | 3 |\n| StatefulSets | 1 |\n| DaemonSets | 2 |\n| Services | 14 |\n\
        | ConfigMaps | 30 |\n| Secrets | -1 |";
    assert_eq!(s, expected);
}

#[test]
fn policy_summary_renders_and_handles_empty() {
    assert_eq!(
        format_cilium_policies(&CiliumPolicySummary { total_policies: 0, policies: Vec::new() }),
        "## 🛡️ Cilium Policies\n\nNo network policies found."
    );
    let s = format_cilium_policies(&CiliumPolicySummary {
        total_policies: 1,
        policies: vec![CiliumPolicy {
            name: "deny-all".to_string(),
            namespace: "prod".to_string(),
            endpoints_matched: 4,
            ingress_rules: 2,
            egress_rules: 1,
        }],
    });
    let expected = "## 🛡️ Cilium Network Policies\n\n**Total:** 1 policies\n\n\
        - `deny-all` (prod) | 4 endpoints | 2 ingress, 1 egress rules";
    assert_eq!(s, expected);
}

#[test]
fn trivy_summary_lists_critical_images() {
    let s = format_trivy_vulnerabilities(&TrivyVulnerabilitySummary {
        total_images: 2,
        critical: 1,
        high: 3,
        medium: 0,
        low: 9,
        images: vec![
            TrivyImageReport {
                image: "registry.example/library/very-long-image-name-that-keeps-going:latest"
                    .to_string(),
                namespace: "prod".to_string(),
                critical_count: 1,
                high_count: 2,
                last_scan: "t".to_string(),
            },
            TrivyImageReport {
                image: "clean".to_string(),
                namespace: "prod".to_string(),
                critical_count: 0,
                high_count: 1,
                last_scan: "t".to_string(),
            },
        ],
    });
    let expected = "## 🔍 Security Vulnerabilities (Trivy)\n\n**Images Scanned:** 2\n\n\
        | Severity | Count |\n|----------|-------|\n| 🔴 Critical | 1 |\n| 🟠 High | 3 |\n\
        | 🟡 Medium | 0 |\n| 🟢 Low | 9 |\n\n**Images with Critical Vulnerabilities:**\n\n\
        - `registry.example/library/very-long-image` (prod) - 1 critical, 2 high";
    assert_eq!(s, expected);
}

#[test]
fn mock_flows_filter_and_cap() {
    let all = get_mock_flows(None, 100, "t");
    assert_eq!(all.flows.len(), 5);
    assert_eq!(all.matrix.len(), 5);
    assert_eq!(all.total_flows, 5);
    assert_eq!(all.namespaces.len(), 8);

    let filtered = get_mock_flows(Some("kusanagi"), 100, "t");
    assert_eq!(filtered.flows.len(), 2);
    assert_eq!(filtered.flows[0].source_namespace, "argocd");
    assert_eq!(filtered.flows[0].source_labels, vec!["app=argocd-server".to_string()]);
    assert_eq!(filtered.flows[0].bytes_sent, 1024);
    assert_eq!(filtered.flows[0].bytes_received, 512);

    let capped = get_mock_flows(Some("kusanagi"), 1, "t");
    assert_eq!(capped.flows.len(), 1);
    assert_eq!(capped.total_flows, 1);
    // The matrix is never capped.
    assert_eq!(capped.matrix.len(), 2);
    assert_eq!(capped.matrix[0].source, "argocd/argocd-server");
    assert_eq!(capped.matrix[0].bytes_total, 102_400);
}

#[test]
fn flow_and_matrix_csv_render_line_by_line() {
    let r = get_mock_flows(Some("default"), 10, "t");
    let csv = export_flows_csv(&r);
    let expected = "source_namespace,source_pod,destination_namespace,destination_pod,port,protocol,verdict,bytes_sent,bytes_received\n\
        default,nginx,kube-system,coredns,53,UDP,FORWARDED,256,128\n";
    assert_eq!(csv, expected);
    let mcsv = export_matrix_csv(&r.matrix);
    let mexpected = "source,destination,protocol,port,flow_count,bytes_total,verdict\n\
        default/nginx,kube-system/coredns,UDP,53,100,25600,FORWARDED\n";
    assert_eq!(mcsv, mexpected);
}

#[test]
fn anomalies_are_screened_by_namespace() {
    let kept = detect_anomalies(Some("argocd"), "t");
    assert_eq!(kept.len(), 1);
    assert_eq!(kept[0].anomaly_type, "unexpected_flow");
    assert_eq!(kept[0].severity, "medium");
    assert_eq!(kept[0].destination, "argocd-server/argocd");
    let dropped = detect_anomalies(Some("unrelated"), "t");
    assert!(dropped.is_empty());
    let all = detect_anomalies(None, "t");
    assert_eq!(all.len(), 1);
}
