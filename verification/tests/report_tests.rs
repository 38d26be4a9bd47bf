use kusanagi::alertmanager::{get_active_alerts, AlertsResponse, AmAlertRecord};
use kusanagi::argocd::{get_argocd_status, ApplicationList, ArgoStatusResponse};
use kusanagi::events::{get_events, EventsResponse};
use kusanagi::export::{export_csv, export_markdown, generate_report, MetricsSnapshot};
use kusanagi::nodes::{get_nodes_status, NodesStatusResponse};
use kusanagi::storage::{get_storage_status, StorageStatusResponse};

fn empty_nodes() -> NodesStatusResponse {
    get_nodes_status(&Vec::new(), &Vec::new(), 0)
}

fn empty_argocd() -> ArgoStatusResponse {
    get_argocd_status(&ApplicationList { items: Vec::new() }, 0)
}

fn empty_events() -> EventsResponse {
    get_events(&Vec::new(), 0)
}

fn empty_storage() -> StorageStatusResponse {
    get_storage_status(&Vec::new(), &Vec::new())
}

fn one_alert() -> AlertsResponse {
    let record = AmAlertRecord {
        labels: vec![
            ("alertname".to_string(), "DiskFull".to_string()),
            ("severity".to_string(), "critical".to_string()),
        ],
        annotations: Vec::new(),
        starts_at: "2024-01-01T00:00:00Z".to_string(),
        ends_at: String::new(),
        fingerprint: "abc".to_string(),
        state: "firing".to_string(),
    };
    get_active_alerts(&vec![record], 0)
}

fn metrics() -> MetricsSnapshot {
    MetricsSnapshot {
        cpu_usage_millipercent: 12_500,
        memory_usage_millipercent: 40_000,
        memory_usage_bytes: 1_000_000,
        pod_count: 10,
        node_count: 2,
        container_count: 20,
        alerts_firing: 1,
        alerts_pending: 0,
    }
}

#[test]
fn required_events_failure_fails_the_whole_report() {
    let r = generate_report(
        Ok(empty_nodes()),
        Ok(empty_argocd()),
        Ok(one_alert()),
        Err("connection refused".to_string()),
        Ok(empty_storage()),
        Ok(metrics()),
        "2024-01-01T00:00:00Z".to_string(),
    );
    assert_eq!(r.err().as_deref(), Some("Failed to get events: connection refused"));
}

#[test]
fn first_required_failure_wins() {
    let r = generate_report(
        Err("no route".to_string()),
        Err("later".to_string()),
        Ok(one_alert()),
        Err("later".to_string()),
        Ok(empty_storage()),
        Ok(metrics()),
        "now".to_string(),
    );
    assert_eq!(r.err().as_deref(), Some("Failed to get nodes: no route"));
}

#[test]
fn optional_alerts_failure_degrades_to_absent() {
    let r = generate_report(
        Ok(empty_nodes()),
        Ok(empty_argocd()),
        Err("alertmanager down".to_string()),
        Ok(empty_events()),
        Ok(empty_storage()),
        Err("prometheus down".to_string()),
        "2024-01-01T00:00:00Z".to_string(),
    )
    .unwrap();
    assert!(r.alerts.is_none());
    assert!(r.metrics.is_none());
    assert_eq!(r.cluster_name, "k3s-cluster");
    assert_eq!(r.summary.total_alerts, 0);
    assert_eq!(r.summary.critical_alerts, 0);
    assert_eq!(r.summary.total_nodes, 0);
}

#[test]
fn summary_is_computed_from_the_snapshots() {
    let r = generate_report(
        Ok(empty_nodes()),
        Ok(empty_argocd()),
        Ok(one_alert()),
        Ok(empty_events()),
        Ok(empty_storage()),
        Ok(metrics()),
        "t".to_string(),
    )
    .unwrap();
    assert_eq!(r.summary.total_alerts, 1);
    assert_eq!(r.summary.critical_alerts, 1);
    assert_eq!(r.summary.warning_alerts, 0);
    assert!(r.metrics.is_some());
}

#[test]
fn identical_provider_outputs_give_identical_summaries() {
    let build = || {
        generate_report(
            Ok(empty_nodes()),
            Ok(empty_argocd()),
            Ok(one_alert()),
            Ok(empty_events()),
            Ok(empty_storage()),
            Ok(metrics()),
            "t".to_string(),
        )
        .unwrap()
    };
    let a = build();
    let b = build();
    assert_eq!(a.summary, b.summary);
}

#[test]
fn csv_renders_the_summary_line_by_line() {
    let r = generate_report(
        Ok(empty_nodes()),
        Ok(empty_argocd()),
        Err("down".to_string()),
        Ok(empty_events()),
        Ok(empty_storage()),
        Err("down".to_string()),
        "2024-01-01T00:00:00Z".to_string(),
    )
    .unwrap();
    let csv = export_csv(&r);
    let expected = "Metric,Value\n\
        Generated At,2024-01-01T00:00:00Z\n\
        Cluster Name,k3s-cluster\n\
        Total Nodes,0\n\
        Ready Nodes,0\n\
        Total Apps,0\n\
        Healthy Apps,0\n\
        Unhealthy Apps,0\n\
        Total Alerts,0\n\
        Critical Alerts,0\n\
        Warning Alerts,0\n\
        Total Events,0\n\
        Warning Events,0\n\
        Total PVCs,0\n";
    assert_eq!(csv, expected);
}

#[test]
fn markdown_renders_the_report_by_section() {
    let r = generate_report(
        Ok(empty_nodes()),
        Ok(empty_argocd()),
        Err("down".to_string()),
        Ok(empty_events()),
        Ok(empty_storage()),
        Err("down".to_string()),
        "2024-01-01T00:00:00Z".to_string(),
    )
    .unwrap();
    let md = export_markdown(&r);
    let mut expected = String::new();
    expected.push_str("# Kusanagi Cluster Report\n\n");
    expected.push_str("**Generated:** 2024-01-01T00:00:00Z\n\n");
    expected.push_str("**Cluster:** k3s-cluster\n\n");
    expected.push_str("---\n\n## Summary\n\n| Metric | Value |\n|--------|-------|\n");
    expected.push_str("| Total Nodes | 0 |\n| Ready Nodes | 0 |\n| Total Apps | 0 |\n");
    expected.push_str("| Healthy Apps | 0 |\n| Unhealthy Apps | 0 |\n| Total Alerts | 0 |\n");
    expected.push_str("| Critical Alerts | 0 |\n| Warning Alerts | 0 |\n| Total Events | 0 |\n");
    expected.push_str("| Warning Events | 0 |\n| PVCs | 0 |\n\n---\n\n");
    expected.push_str("## Alerts\n\n✅ No active alerts\n\n");
    expected.push_str("---\n\n## Nodes\n\n| Name | Status | Architecture | CPU | Memory |\n");
    expected.push_str("|------|--------|--------------|-----|--------|\n");
    expected.push_str("\n---\n\n## ArgoCD Applications\n\n");
    expected.push_str("---\n\n*Kusanagi Agent Controller*\n");
    assert_eq!(md, expected);
}
