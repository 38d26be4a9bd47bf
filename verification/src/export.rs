//! The report aggregator: required and optional provider outcomes folded
//! into one cluster report with a derived summary, plus the CSV rendering
//! of that summary.

use vstd::prelude::*;
use crate::alertmanager::{clamp_i32, AlertsResponse};
use crate::argocd::ArgoStatusResponse;
use crate::events::EventsResponse;
use crate::nodes::NodesStatusResponse;
use crate::storage::StorageStatusResponse;
use crate::strfmt::{dec_str, dec_str_i, i32_to_string, usize_to_string};

verus! {

/// A metrics snapshot from the metrics backend, in integer units:
/// percentages carried in thousandths of a percent.
#[derive(Clone, Debug)]
pub struct MetricsSnapshot {
    pub cpu_usage_millipercent: i64,
    pub memory_usage_millipercent: i64,
    pub memory_usage_bytes: i64,
    pub pod_count: i32,
    pub node_count: i32,
    pub container_count: i32,
    pub alerts_firing: i32,
    pub alerts_pending: i32,
}

/// The derived counts of a report; always recomputed from the snapshots
/// it ships with.
#[derive(Clone, Copy, Debug, PartialEq, Eq, Structural)]
pub struct ReportSummary {
    pub total_nodes: usize,
    pub ready_nodes: usize,
    pub total_apps: usize,
    pub healthy_apps: usize,
    pub unhealthy_apps: usize,
    pub total_alerts: i32,
    pub critical_alerts: i32,
    pub warning_alerts: i32,
    pub total_events: usize,
    pub warning_events: usize,
    pub total_pvcs: usize,
}

/// A full cluster report: every snapshot plus the derived summary.
#[derive(Clone, Debug)]
pub struct ClusterReport {
    pub generated_at: String,
    pub cluster_name: String,
    pub summary: ReportSummary,
    pub nodes: NodesStatusResponse,
    pub argocd_apps: ArgoStatusResponse,
    pub alerts: Option<AlertsResponse>,
    pub events: EventsResponse,
    pub storage: StorageStatusResponse,
    pub metrics: Option<MetricsSnapshot>,
}

// ---------------------------------------------------------------------------
// The summary
// ---------------------------------------------------------------------------

/// The summary derived from the snapshots: pure counts, a function of the
/// snapshots alone.
pub open spec fn spec_report_summary(
    nodes: NodesStatusResponse,
    argocd: ArgoStatusResponse,
    alerts: Option<AlertsResponse>,
    events: EventsResponse,
    storage: StorageStatusResponse,
) -> ReportSummary {
    ReportSummary {
        total_nodes: nodes.total_nodes,
        ready_nodes: nodes.ready_nodes,
        total_apps: argocd.total,
        healthy_apps: argocd.healthy,
        unhealthy_apps: argocd.unhealthy,
        total_alerts: match alerts {
            Some(a) => a.total,
            None => 0,
        },
        critical_alerts: match alerts {
            Some(a) => clamp_i32(a.critical@.len() as int) as i32,
            None => 0,
        },
        warning_alerts: match alerts {
            Some(a) => clamp_i32(a.warning@.len() as int) as i32,
            None => 0,
        },
        total_events: events.total_events,
        warning_events: events.warning_count,
        total_pvcs: storage.pvc_count,
    }
}

fn len_to_i32_clamped(v: usize) -> (r: i32)
    ensures
        r as int == clamp_i32(v as int),
{
    if v > 0x7fff_ffff {
        i32::MAX
    } else {
        v as i32
    }
}

/// Computes the summary of a report's snapshots.
pub fn build_summary(
    nodes: &NodesStatusResponse,
    argocd: &ArgoStatusResponse,
    alerts: &Option<AlertsResponse>,
    events: &EventsResponse,
    storage: &StorageStatusResponse,
) -> (s: ReportSummary)
    ensures
        s == spec_report_summary(*nodes, *argocd, *alerts, *events, *storage),
{
    ReportSummary {
        total_nodes: nodes.total_nodes,
        ready_nodes: nodes.ready_nodes,
        total_apps: argocd.total,
        healthy_apps: argocd.healthy,
        unhealthy_apps: argocd.unhealthy,
        total_alerts: match alerts {
            Some(a) => a.total,
            None => 0,
        },
        critical_alerts: match alerts {
            Some(a) => len_to_i32_clamped(a.critical.len()),
            None => 0,
        },
        warning_alerts: match alerts {
            Some(a) => len_to_i32_clamped(a.warning.len()),
            None => 0,
        },
        total_events: events.total_events,
        warning_events: events.warning_count,
        total_pvcs: storage.pvc_count,
    }
}

/// The summary is a function of the snapshots alone: two aggregations fed
/// identical provider outputs carry identical summaries.
pub proof fn lemma_summary_idempotent(
    s1: ReportSummary,
    s2: ReportSummary,
    nodes: NodesStatusResponse,
    argocd: ArgoStatusResponse,
    alerts: Option<AlertsResponse>,
    events: EventsResponse,
    storage: StorageStatusResponse,
)
    requires
        s1 == spec_report_summary(nodes, argocd, alerts, events, storage),
        s2 == spec_report_summary(nodes, argocd, alerts, events, storage),
    ensures
        s1 == s2,
{
}

// ---------------------------------------------------------------------------
// The aggregator
// ---------------------------------------------------------------------------

/// What `generate_report` returns for given provider outcomes: `Err` with
/// the first required failure wrapped in its source's name, else `Ok`.
pub open spec fn spec_report_error(
    nodes: Result<NodesStatusResponse, String>,
    argocd: Result<ArgoStatusResponse, String>,
    events: Result<EventsResponse, String>,
    storage: Result<StorageStatusResponse, String>,
) -> Option<Seq<char>> {
    if nodes is Err {
        Some("Failed to get nodes: "@ + nodes->Err_0@)
    } else if argocd is Err {
        Some("Failed to get ArgoCD status: "@ + argocd->Err_0@)
    } else if events is Err {
        Some("Failed to get events: "@ + events->Err_0@)
    } else if storage is Err {
        Some("Failed to get storage: "@ + storage->Err_0@)
    } else {
        None
    }
}

/// Assembles a full cluster report from the six provider outcomes.
///
/// Nodes, workloads, events and storage are required: the first failure
/// among them, in that order, fails the whole report with the source
/// named. Alerts and metrics are optional: a failure there only leaves
/// the field absent. On success every snapshot is carried unchanged and
/// the summary is computed from them.
pub fn generate_report(
    nodes: Result<NodesStatusResponse, String>,
    argocd: Result<ArgoStatusResponse, String>,
    alerts: Result<AlertsResponse, String>,
    events: Result<EventsResponse, String>,
    storage: Result<StorageStatusResponse, String>,
    metrics: Result<MetricsSnapshot, String>,
    generated_at: String,
) -> (r: Result<ClusterReport, String>)
    ensures
        r is Ok <==> (nodes is Ok && argocd is Ok && events is Ok && storage is Ok),
        r is Err ==> Some(r->Err_0@) == spec_report_error(nodes, argocd, events, storage),
        r is Ok ==> {
            let rep = r->Ok_0;
            &&& rep.generated_at == generated_at
            &&& rep.cluster_name@ == "k3s-cluster"@
            &&& rep.nodes == nodes->Ok_0
            &&& rep.argocd_apps == argocd->Ok_0
            &&& rep.events == events->Ok_0
            &&& rep.storage == storage->Ok_0
            &&& (rep.alerts is Some <==> alerts is Ok)
            &&& (alerts is Ok ==> rep.alerts->0 == alerts->Ok_0)
            &&& (rep.metrics is Some <==> metrics is Ok)
            &&& (metrics is Ok ==> rep.metrics->0 == metrics->Ok_0)
            &&& rep.summary == spec_report_summary(
                nodes->Ok_0,
                argocd->Ok_0,
                rep.alerts,
                events->Ok_0,
                storage->Ok_0,
            )
        },
{
    let nodes_data = match nodes {
        Ok(v) => v,
        Err(e) => {
            let mut msg = String::from_str("Failed to get nodes: ");
            msg.append(e.as_str());
            return Err(msg);
        },
    };
    let argocd_data = match argocd {
        Ok(v) => v,
        Err(e) => {
            let mut msg = String::from_str("Failed to get ArgoCD status: ");
            msg.append(e.as_str());
            return Err(msg);
        },
    };
    let events_data = match events {
        Ok(v) => v,
        Err(e) => {
            let mut msg = String::from_str("Failed to get events: ");
            msg.append(e.as_str());
            return Err(msg);
        },
    };
    let storage_data = match storage {
        Ok(v) => v,
        Err(e) => {
            let mut msg = String::from_str("Failed to get storage: ");
            msg.append(e.as_str());
            return Err(msg);
        },
    };
    let alerts_data = match alerts {
        Ok(v) => Some(v),
        Err(_) => None,
    };
    let metrics_data = match metrics {
        Ok(v) => Some(v),
        Err(_) => None,
    };
    let summary = build_summary(&nodes_data, &argocd_data, &alerts_data, &events_data, &storage_data);
    Ok(
        ClusterReport {
            generated_at,
            cluster_name: String::from_str("k3s-cluster"),
            summary,
            nodes: nodes_data,
            argocd_apps: argocd_data,
            alerts: alerts_data,
            events: events_data,
            storage: storage_data,
            metrics: metrics_data,
        },
    )
}

// ---------------------------------------------------------------------------
// CSV rendering of the summary
// ---------------------------------------------------------------------------

/// One CSV line: a label, a comma, a value, a newline.
pub open spec fn csv_line(label: Seq<char>, value: Seq<char>) -> Seq<char> {
    label + ","@ + value + "\n"@
}

/// The CSV rendering of a report's summary.
pub open spec fn spec_export_csv(r: ClusterReport) -> Seq<char> {
    "Metric,Value\n"@ + csv_line("Generated At"@, r.generated_at@) + csv_line(
        "Cluster Name"@,
        r.cluster_name@,
    ) + csv_line("Total Nodes"@, dec_str(r.summary.total_nodes as nat)) + csv_line(
        "Ready Nodes"@,
        dec_str(r.summary.ready_nodes as nat),
    ) + csv_line("Total Apps"@, dec_str(r.summary.total_apps as nat)) + csv_line(
        "Healthy Apps"@,
        dec_str(r.summary.healthy_apps as nat),
    ) + csv_line("Unhealthy Apps"@, dec_str(r.summary.unhealthy_apps as nat)) + csv_line(
        "Total Alerts"@,
        dec_str_i(r.summary.total_alerts as int),
    ) + csv_line("Critical Alerts"@, dec_str_i(r.summary.critical_alerts as int)) + csv_line(
        "Warning Alerts"@,
        dec_str_i(r.summary.warning_alerts as int),
    ) + csv_line("Total Events"@, dec_str(r.summary.total_events as nat)) + csv_line(
        "Warning Events"@,
        dec_str(r.summary.warning_events as nat),
    ) + csv_line("Total PVCs"@, dec_str(r.summary.total_pvcs as nat))
}

fn push_csv_line(out: &mut String, label: &str, value: &str)
    ensures
        final(out)@ == old(out)@ + csv_line(label@, value@),
{
    out.append(label);
    out.append(",");
    out.append(value);
    out.append("\n");
    proof {
        assert(final(out)@ =~= old(out)@ + csv_line(label@, value@));
    }
}

/// Renders the report's summary as CSV, one metric per line.
pub fn export_csv(report: &ClusterReport) -> (csv: String)
    ensures
        csv@ == spec_export_csv(*report),
{
    let mut csv = String::from_str("Metric,Value\n");
    push_csv_line(&mut csv, "Generated At", report.generated_at.as_str());
    push_csv_line(&mut csv, "Cluster Name", report.cluster_name.as_str());
    let v = usize_to_string(report.summary.total_nodes);
    push_csv_line(&mut csv, "Total Nodes", v.as_str());
    let v = usize_to_string(report.summary.ready_nodes);
    push_csv_line(&mut csv, "Ready Nodes", v.as_str());
    let v = usize_to_string(report.summary.total_apps);
    push_csv_line(&mut csv, "Total Apps", v.as_str());
    let v = usize_to_string(report.summary.healthy_apps);
    push_csv_line(&mut csv, "Healthy Apps", v.as_str());
    let v = usize_to_string(report.summary.unhealthy_apps);
    push_csv_line(&mut csv, "Unhealthy Apps", v.as_str());
    let v = i32_to_string(report.summary.total_alerts);
    push_csv_line(&mut csv, "Total Alerts", v.as_str());
    let v = i32_to_string(report.summary.critical_alerts);
    push_csv_line(&mut csv, "Critical Alerts", v.as_str());
    let v = i32_to_string(report.summary.warning_alerts);
    push_csv_line(&mut csv, "Warning Alerts", v.as_str());
    let v = usize_to_string(report.summary.total_events);
    push_csv_line(&mut csv, "Total Events", v.as_str());
    let v = usize_to_string(report.summary.warning_events);
    push_csv_line(&mut csv, "Warning Events", v.as_str());
    let v = usize_to_string(report.summary.total_pvcs);
    push_csv_line(&mut csv, "Total PVCs", v.as_str());
    proof {
        assert(csv@ =~= spec_export_csv(*report));
    }
    csv
}


// ---------------------------------------------------------------------------
// Markdown rendering of the report
// ---------------------------------------------------------------------------

/// One node's Markdown table line.
pub open spec fn spec_md_node_line(n: crate::nodes::NodeInfo) -> Seq<char> {
    "| "@ + n.name@ + " | "@ + n.status@ + " | "@ + n.architecture@ + " | "@ + n.cpu_capacity@
        + " | "@ + n.memory_capacity@ + " |\n"@
}

pub open spec fn spec_md_node_lines(nodes: Seq<crate::nodes::NodeInfo>) -> Seq<char>
    decreases nodes.len(),
{
    if nodes.len() == 0 {
        Seq::<char>::empty()
    } else {
        spec_md_node_lines(nodes.drop_last()) + spec_md_node_line(nodes.last())
    }
}

/// One issue's Markdown bullet line.
pub open spec fn spec_md_issue_line(i: crate::argocd::AppIssue) -> Seq<char> {
    "- **"@ + i.name@ + "** ("@ + i.namespace@ + ") - Health: "@ + i.health_status@
        + ", Sync: "@ + i.sync_status@ + "\n"@
}

pub open spec fn spec_md_issue_lines(issues: Seq<crate::argocd::AppIssue>) -> Seq<char>
    decreases issues.len(),
{
    if issues.len() == 0 {
        Seq::<char>::empty()
    } else {
        spec_md_issue_lines(issues.drop_last()) + spec_md_issue_line(issues.last())
    }
}

/// One summary table row.
pub open spec fn md_row(label: Seq<char>, value: Seq<char>) -> Seq<char> {
    "| "@ + label + " | "@ + value + " |\n"@
}

/// The alerts section: the counts when any alert fires, else a calm note.
pub open spec fn spec_md_alerts(s: ReportSummary) -> Seq<char> {
    if s.total_alerts > 0 {
        "## Active Alerts\n\n"@ + (if s.critical_alerts > 0 {
            "🔴 **Critical:** "@ + dec_str_i(s.critical_alerts as int) + "\n\n"@
        } else {
            Seq::<char>::empty()
        }) + (if s.warning_alerts > 0 {
            "🟠 **Warning:** "@ + dec_str_i(s.warning_alerts as int) + "\n\n"@
        } else {
            Seq::<char>::empty()
        })
    } else {
        "## Alerts\n\n✅ No active alerts\n\n"@
    }
}

/// The issues section: present only when issues were surfaced.
pub open spec fn spec_md_issues(issues: Seq<crate::argocd::AppIssue>) -> Seq<char> {
    if issues.len() > 0 {
        "### Issues\n\n"@ + spec_md_issue_lines(issues) + "\n"@
    } else {
        Seq::<char>::empty()
    }
}

fn push_md_row(out: &mut String, label: &str, value: &str)
    ensures
        final(out)@ == old(out)@ + md_row(label@, value@),
{
    out.append("| ");
    out.append(label);
    out.append(" | ");
    out.append(value);
    out.append(" |\n");
    proof {
        assert(final(out)@ =~= old(out)@ + md_row(label@, value@));
    }
}

fn md_node_line(n: &crate::nodes::NodeInfo) -> (line: String)
    ensures
        line@ == spec_md_node_line(*n),
{
    let mut line = String::from_str("| ");
    line.append(n.name.as_str());
    line.append(" | ");
    line.append(n.status.as_str());
    line.append(" | ");
    line.append(n.architecture.as_str());
    line.append(" | ");
    line.append(n.cpu_capacity.as_str());
    line.append(" | ");
    line.append(n.memory_capacity.as_str());
    line.append(" |\n");
    proof {
        assert(line@ =~= spec_md_node_line(*n));
    }
    line
}

fn md_issue_line(i: &crate::argocd::AppIssue) -> (line: String)
    ensures
        line@ == spec_md_issue_line(*i),
{
    let mut line = String::from_str("- **");
    line.append(i.name.as_str());
    line.append("** (");
    line.append(i.namespace.as_str());
    line.append(") - Health: ");
    line.append(i.health_status.as_str());
    line.append(", Sync: ");
    line.append(i.sync_status.as_str());
    line.append("\n");
    proof {
        assert(line@ =~= spec_md_issue_line(*i));
    }
    line
}

/// The fixed head of the report plus the summary table.
pub open spec fn spec_md_head(r: ClusterReport) -> Seq<char> {
    "# Kusanagi Cluster Report\n\n**Generated:** "@ + r.generated_at@ + "\n\n**Cluster:** "@
        + r.cluster_name@ + "\n\n---\n\n## Summary\n\n| Metric | Value |\n|--------|-------|\n"@
        + md_row("Total Nodes"@, dec_str(r.summary.total_nodes as nat)) + md_row(
        "Ready Nodes"@,
        dec_str(r.summary.ready_nodes as nat),
    ) + md_row("Total Apps"@, dec_str(r.summary.total_apps as nat)) + md_row(
        "Healthy Apps"@,
        dec_str(r.summary.healthy_apps as nat),
    ) + md_row("Unhealthy Apps"@, dec_str(r.summary.unhealthy_apps as nat)) + md_row(
        "Total Alerts"@,
        dec_str_i(r.summary.total_alerts as int),
    ) + md_row("Critical Alerts"@, dec_str_i(r.summary.critical_alerts as int)) + md_row(
        "Warning Alerts"@,
        dec_str_i(r.summary.warning_alerts as int),
    ) + md_row("Total Events"@, dec_str(r.summary.total_events as nat)) + md_row(
        "Warning Events"@,
        dec_str(r.summary.warning_events as nat),
    ) + md_row("PVCs"@, dec_str(r.summary.total_pvcs as nat)) + "\n---\n\n"@
}

#[verifier::rlimit(60)]
fn md_head(report: &ClusterReport) -> (md: String)
    ensures
        md@ == spec_md_head(*report),
{
    let mut md = String::from_str("# Kusanagi Cluster Report\n\n**Generated:** ");
    md.append(report.generated_at.as_str());
    md.append("\n\n**Cluster:** ");
    md.append(report.cluster_name.as_str());
    md.append("\n\n---\n\n## Summary\n\n| Metric | Value |\n|--------|-------|\n");
    let v = usize_to_string(report.summary.total_nodes);
    push_md_row(&mut md, "Total Nodes", v.as_str());
    let v = usize_to_string(report.summary.ready_nodes);
    push_md_row(&mut md, "Ready Nodes", v.as_str());
    let v = usize_to_string(report.summary.total_apps);
    push_md_row(&mut md, "Total Apps", v.as_str());
    let v = usize_to_string(report.summary.healthy_apps);
    push_md_row(&mut md, "Healthy Apps", v.as_str());
    let v = usize_to_string(report.summary.unhealthy_apps);
    push_md_row(&mut md, "Unhealthy Apps", v.as_str());
    let v = i32_to_string(report.summary.total_alerts);
    push_md_row(&mut md, "Total Alerts", v.as_str());
    let v = i32_to_string(report.summary.critical_alerts);
    push_md_row(&mut md, "Critical Alerts", v.as_str());
    let v = i32_to_string(report.summary.warning_alerts);
    push_md_row(&mut md, "Warning Alerts", v.as_str());
    let v = usize_to_string(report.summary.total_events);
    push_md_row(&mut md, "Total Events", v.as_str());
    let v = usize_to_string(report.summary.warning_events);
    push_md_row(&mut md, "Warning Events", v.as_str());
    let v = usize_to_string(report.summary.total_pvcs);
    push_md_row(&mut md, "PVCs", v.as_str());
    md.append("\n---\n\n");
    proof {
        assert(md@ =~= spec_md_head(*report));
    }
    md
}

fn md_alerts(s: &ReportSummary) -> (md: String)
    ensures
        md@ == spec_md_alerts(*s),
{
    let mut md = String::new();
    if s.total_alerts > 0 {
        md.append("## Active Alerts\n\n");
        if s.critical_alerts > 0 {
            md.append("🔴 **Critical:** ");
            let v = i32_to_string(s.critical_alerts);
            md.append(v.as_str());
            md.append("\n\n");
        }
        if s.warning_alerts > 0 {
            md.append("🟠 **Warning:** ");
            let v = i32_to_string(s.warning_alerts);
            md.append(v.as_str());
            md.append("\n\n");
        }
    } else {
        md.append("## Alerts\n\n✅ No active alerts\n\n");
    }
    proof {
        assert(md@ =~= spec_md_alerts(*s));
    }
    md
}

fn md_nodes(nodes: &NodesStatusResponse) -> (md: String)
    ensures
        md@
            == "---\n\n## Nodes\n\n| Name | Status | Architecture | CPU | Memory |\n|------|--------|--------------|-----|--------|\n"@
            + spec_md_node_lines(nodes.nodes@),
{
    let mut md = String::from_str(
        "---\n\n## Nodes\n\n| Name | Status | Architecture | CPU | Memory |\n|------|--------|--------------|-----|--------|\n",
    );
    let ghost head = md@;
    let n = nodes.nodes.len();
    let mut i: usize = 0;
    proof {
        assert(md@ =~= head + spec_md_node_lines(nodes.nodes@.take(0)));
    }
    while i < n
        invariant
            i <= n,
            n == nodes.nodes@.len(),
            md@ == head + spec_md_node_lines(nodes.nodes@.take(i as int)),
        decreases n - i,
    {
        proof {
            assert(nodes.nodes@.take(i + 1).drop_last() =~= nodes.nodes@.take(i as int));
            assert(nodes.nodes@.take(i + 1).last() == nodes.nodes@[i as int]);
        }
        let line = md_node_line(&nodes.nodes[i]);
        md.append(line.as_str());
        i += 1;
    }
    proof {
        assert(nodes.nodes@.take(n as int) =~= nodes.nodes@);
    }
    md
}

fn md_issues(argocd: &ArgoStatusResponse) -> (md: String)
    ensures
        md@ == "\n---\n\n## ArgoCD Applications\n\n"@ + spec_md_issues(
            argocd.apps_with_issues@,
        ),
{
    let mut md = String::from_str("\n---\n\n## ArgoCD Applications\n\n");
    let ni = argocd.apps_with_issues.len();
    if ni > 0 {
        md.append("### Issues\n\n");
        let ghost head = md@;
        let mut j: usize = 0;
        proof {
            assert(md@ =~= head + spec_md_issue_lines(argocd.apps_with_issues@.take(0)));
        }
        while j < ni
            invariant
                j <= ni,
                ni == argocd.apps_with_issues@.len(),
                md@ == head + spec_md_issue_lines(argocd.apps_with_issues@.take(j as int)),
            decreases ni - j,
        {
            proof {
                assert(argocd.apps_with_issues@.take(j + 1).drop_last()
                    =~= argocd.apps_with_issues@.take(j as int));
                assert(argocd.apps_with_issues@.take(j + 1).last()
                    == argocd.apps_with_issues@[j as int]);
            }
            let line = md_issue_line(&argocd.apps_with_issues[j]);
            md.append(line.as_str());
            j += 1;
        }
        proof {
            assert(argocd.apps_with_issues@.take(ni as int) =~= argocd.apps_with_issues@);
        }
        md.append("\n");
    }
    proof {
        assert(md@ =~= "\n---\n\n## ArgoCD Applications\n\n"@ + spec_md_issues(
            argocd.apps_with_issues@,
        ));
    }
    md
}

/// The whole Markdown rendering of a report, by section.
pub open spec fn spec_export_markdown(r: ClusterReport) -> Seq<char> {
    spec_md_head(r) + spec_md_alerts(r.summary)
        + "---\n\n## Nodes\n\n| Name | Status | Architecture | CPU | Memory |\n|------|--------|--------------|-----|--------|\n"@
        + spec_md_node_lines(r.nodes.nodes@) + "\n---\n\n## ArgoCD Applications\n\n"@
        + spec_md_issues(r.argocd_apps.apps_with_issues@)
        + "---\n\n*Kusanagi Agent Controller*\n"@
}

/// Renders the report as Markdown: the summary table, the alert counts,
/// the node table and the surfaced issues.
pub fn export_markdown(report: &ClusterReport) -> (md: String)
    ensures
        md@ == spec_export_markdown(*report),
{
    let mut md = md_head(report);
    let alerts = md_alerts(&report.summary);
    md.append(alerts.as_str());
    let nodes = md_nodes(&report.nodes);
    md.append(nodes.as_str());
    let issues = md_issues(&report.argocd_apps);
    md.append(issues.as_str());
    md.append("---\n\n*Kusanagi Agent Controller*\n");
    proof {
        assert(md@ =~= spec_export_markdown(*report));
    }
    md
}

} // verus!

