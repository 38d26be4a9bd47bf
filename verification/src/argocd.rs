//! Workload (GitOps application) records, issue rows derived from them, and
//! the status summary builder.

use vstd::prelude::*;
use crate::classify::{
    categorize_issue, can_sync, has_issue, opt_view, spec_can_sync, spec_categorize,
    spec_has_issue, IssueCategory,
};
use crate::duration::{format_duration, spec_format_duration};
use crate::time::{parse_rfc3339_seconds, rfc3339_epoch_seconds};

verus! {

/// A GitOps application record, as read from the control plane.
#[derive(Clone, Debug)]
pub struct Application {
    pub metadata: ApplicationMetadata,
    pub spec: ApplicationSpec,
    pub status: Option<ApplicationStatus>,
}

#[derive(Clone, Debug)]
pub struct ApplicationMetadata {
    pub name: Option<String>,
    pub namespace: Option<String>,
}

#[derive(Clone, Debug)]
pub struct ApplicationSpec {
    pub project: Option<String>,
    pub source: Option<ApplicationSource>,
    pub destination: Option<ApplicationDestination>,
}

#[derive(Clone, Debug)]
pub struct ApplicationSource {
    pub repo_url: Option<String>,
    pub path: Option<String>,
    pub target_revision: Option<String>,
    pub chart: Option<String>,
}

#[derive(Clone, Debug)]
pub struct ApplicationDestination {
    pub server: Option<String>,
    pub namespace: Option<String>,
}

#[derive(Clone, Debug)]
pub struct ApplicationStatus {
    pub sync: Option<SyncStatus>,
    pub health: Option<HealthStatus>,
    pub operation_state: Option<OperationState>,
    pub reconciled_at: Option<String>,
    pub resources: Option<Vec<ResourceStatus>>,
}

impl Default for ApplicationStatus {
    /// An absent status reads as all fields missing.
    fn default() -> (r: ApplicationStatus)
        ensures
            r.sync is None,
            r.health is None,
            r.operation_state is None,
            r.reconciled_at is None,
            r.resources is None,
    {
        ApplicationStatus {
            sync: None,
            health: None,
            operation_state: None,
            reconciled_at: None,
            resources: None,
        }
    }
}

#[derive(Clone, Debug)]
pub struct SyncStatus {
    pub status: Option<String>,
    pub revision: Option<String>,
    pub compared_to: Option<ComparedTo>,
}

#[derive(Clone, Debug)]
pub struct ComparedTo {
    pub source: Option<ApplicationSource>,
    pub destination: Option<ApplicationDestination>,
}

#[derive(Clone, Debug)]
pub struct HealthStatus {
    pub status: Option<String>,
    pub message: Option<String>,
}

#[derive(Clone, Debug)]
pub struct OperationState {
    pub phase: Option<String>,
    pub message: Option<String>,
    pub started_at: Option<String>,
    pub finished_at: Option<String>,
    pub sync_result: Option<SyncResult>,
}

#[derive(Clone, Debug)]
pub struct SyncResult {
    pub revision: Option<String>,
    pub source: Option<ApplicationSource>,
}

#[derive(Clone, Debug)]
pub struct ResourceStatus {
    pub group: Option<String>,
    pub version: Option<String>,
    pub kind: Option<String>,
    pub namespace: Option<String>,
    pub name: Option<String>,
    pub status: Option<String>,
    pub health: Option<HealthStatus>,
    pub requires_pruning: Option<bool>,
}

/// A list of application records.
#[derive(Clone, Debug)]
pub struct ApplicationList {
    pub items: Vec<Application>,
}

/// One surfaced issue, ready for display.
#[derive(Clone, Debug)]
pub struct AppIssue {
    pub name: String,
    pub namespace: String,
    pub health_status: String,
    pub sync_status: String,
    pub message: Option<String>,
    pub error_since: Option<String>,
    pub error_duration: Option<String>,
    pub category: IssueCategory,
    pub target_revision: Option<String>,
    pub current_revision: Option<String>,
    pub is_helm_chart: bool,
    pub can_sync: bool,
    pub argocd_url: String,
}

/// The workload status summary.
#[derive(Clone, Debug)]
pub struct ArgoStatusResponse {
    pub total: usize,
    pub healthy: usize,
    pub unhealthy: usize,
    pub synced: usize,
    pub out_of_sync: usize,
    pub unknown: usize,
    pub progressing: usize,
    pub upgrades_available: usize,
    pub apps_with_issues: Vec<AppIssue>,
    pub apps_with_upgrades: Vec<AppIssue>,
}

/// A request to sync one application by name.
#[derive(Clone, Debug)]
pub struct SyncRequest {
    pub app_name: String,
}

/// The reply to a sync request.
#[derive(Clone, Debug)]
pub struct SyncResponse {
    pub success: bool,
    pub message: String,
}

// ---------------------------------------------------------------------------
// Field extraction, with absent fields reading as documented defaults
// ---------------------------------------------------------------------------

/// Health status of a record; missing fields read `"Unknown"`.
pub open spec fn spec_health_of(a: Application) -> Seq<char> {
    match a.status {
        Some(st) => match st.health {
            Some(h) => match h.status {
                Some(s) => s@,
                None => "Unknown"@,
            },
            None => "Unknown"@,
        },
        None => "Unknown"@,
    }
}

/// Sync status of a record; missing fields read `"Unknown"`.
pub open spec fn spec_sync_of(a: Application) -> Seq<char> {
    match a.status {
        Some(st) => match st.sync {
            Some(s) => match s.status {
                Some(v) => v@,
                None => "Unknown"@,
            },
            None => "Unknown"@,
        },
        None => "Unknown"@,
    }
}

/// The record's message: the health message, falling back to the last
/// operation's message.
pub open spec fn spec_message_of(a: Application) -> Option<Seq<char>> {
    let health_msg: Option<Seq<char>> = match a.status {
        Some(st) => match st.health {
            Some(h) => match h.message {
                Some(m) => Some(m@),
                None => None,
            },
            None => None,
        },
        None => None,
    };
    if health_msg is Some {
        health_msg
    } else {
        match a.status {
            Some(st) => match st.operation_state {
                Some(o) => match o.message {
                    Some(m) => Some(m@),
                    None => None,
                },
                None => None,
            },
            None => None,
        }
    }
}

/// The record names a chart, so it is deployed from a Helm chart.
pub open spec fn spec_is_helm(a: Application) -> bool {
    match a.spec.source {
        Some(src) => src.chart is Some,
        None => false,
    }
}

/// The source's target revision, if any.
pub open spec fn spec_target_rev(a: Application) -> Option<Seq<char>> {
    match a.spec.source {
        Some(src) => match src.target_revision {
            Some(r) => Some(r@),
            None => None,
        },
        None => None,
    }
}

/// The currently synced revision, if any.
pub open spec fn spec_current_rev(a: Application) -> Option<Seq<char>> {
    match a.status {
        Some(st) => match st.sync {
            Some(s) => match s.revision {
                Some(r) => Some(r@),
                None => None,
            },
            None => None,
        },
        None => None,
    }
}

/// The record's name; empty when missing.
pub open spec fn spec_name_of(a: Application) -> Seq<char> {
    match a.metadata.name {
        Some(n) => n@,
        None => Seq::<char>::empty(),
    }
}

/// The destination namespace; empty when missing.
pub open spec fn spec_dest_ns_of(a: Application) -> Seq<char> {
    match a.spec.destination {
        Some(d) => match d.namespace {
            Some(n) => n@,
            None => Seq::<char>::empty(),
        },
        None => Seq::<char>::empty(),
    }
}

/// The timestamp an error is dated from: the last operation's start when
/// present, else the reconciliation timestamp.
pub open spec fn spec_error_since(st: Option<ApplicationStatus>) -> Option<Seq<char>> {
    match st {
        Some(s) => match s.operation_state {
            Some(o) => match o.started_at {
                Some(t) => Some(t@),
                None => spec_reconciled_at(s),
            },
            None => spec_reconciled_at(s),
        },
        None => None,
    }
}

pub open spec fn spec_reconciled_at(s: ApplicationStatus) -> Option<Seq<char>> {
    match s.reconciled_at {
        Some(t) => Some(t@),
        None => None,
    }
}

/// The rendered elapsed-error duration: present exactly when the dating
/// timestamp parses and the elapsed seconds fit the machine range.
pub open spec fn spec_error_duration(st: Option<ApplicationStatus>, now: int) -> Option<
    Seq<char>,
> {
    match spec_error_since(st) {
        Some(ts) => match rfc3339_epoch_seconds(ts) {
            Some(t) => if -0x8000_0000_0000_0000 <= now - t <= 0x7fff_ffff_ffff_ffff {
                Some(spec_format_duration(now - t))
            } else {
                None
            },
            None => None,
        },
        None => None,
    }
}

/// Dates an issue and renders how long it has lasted, against `now_epoch`
/// (seconds since the Unix epoch). The raw timestamp is surfaced even when
/// it does not parse; the duration only when it does.
pub fn calculate_error_duration(status: &Option<ApplicationStatus>, now_epoch: i64) -> (r: (
    Option<String>,
    Option<String>,
))
    ensures
        opt_view(r.0) == spec_error_since(*status),
        opt_view(r.1) == spec_error_duration(*status, now_epoch as int),
{
    let ts: Option<&String> = match status {
        Some(st) => match &st.operation_state {
            Some(o) => match &o.started_at {
                Some(t) => Some(t),
                None => st.reconciled_at.as_ref(),
            },
            None => st.reconciled_at.as_ref(),
        },
        None => None,
    };
    match ts {
        Some(t) => {
            let dur = match parse_rfc3339_seconds(t.as_str()) {
                Some(sec) => match now_epoch.checked_sub(sec) {
                    Some(d) => Some(format_duration(d)),
                    None => None,
                },
                None => None,
            };
            (Some(t.clone()), dur)
        },
        None => (None, None),
    }
}

// ---------------------------------------------------------------------------
// Issue rows
// ---------------------------------------------------------------------------

/// The mathematical content of one surfaced issue.
#[verifier::ext_equal]
pub struct IssueRow {
    pub name: Seq<char>,
    pub namespace: Seq<char>,
    pub health_status: Seq<char>,
    pub sync_status: Seq<char>,
    pub message: Option<Seq<char>>,
    pub error_since: Option<Seq<char>>,
    pub error_duration: Option<Seq<char>>,
    pub category: IssueCategory,
    pub target_revision: Option<Seq<char>>,
    pub current_revision: Option<Seq<char>>,
    pub is_helm_chart: bool,
    pub can_sync: bool,
    pub argocd_url: Seq<char>,
}

/// What a surfaced issue says, as views.
pub open spec fn issue_row_of(x: AppIssue) -> IssueRow {
    IssueRow {
        name: x.name@,
        namespace: x.namespace@,
        health_status: x.health_status@,
        sync_status: x.sync_status@,
        message: opt_view(x.message),
        error_since: opt_view(x.error_since),
        error_duration: opt_view(x.error_duration),
        category: x.category,
        target_revision: opt_view(x.target_revision),
        current_revision: opt_view(x.current_revision),
        is_helm_chart: x.is_helm_chart,
        can_sync: x.can_sync,
        argocd_url: x.argocd_url@,
    }
}

/// The issue row a record gives rise to.
pub open spec fn spec_issue_row(a: Application, now: int) -> IssueRow {
    IssueRow {
        name: spec_name_of(a),
        namespace: spec_dest_ns_of(a),
        health_status: spec_health_of(a),
        sync_status: spec_sync_of(a),
        message: spec_message_of(a),
        error_since: spec_error_since(a.status),
        error_duration: spec_error_duration(a.status, now),
        category: spec_categorize(
            spec_health_of(a),
            spec_sync_of(a),
            spec_message_of(a),
            spec_is_helm(a),
            spec_target_rev(a),
        ),
        target_revision: spec_target_rev(a),
        current_revision: spec_current_rev(a),
        is_helm_chart: spec_is_helm(a),
        can_sync: spec_can_sync(spec_health_of(a)),
        argocd_url: "https://argocd.p.zacharie.org/applications/argocd/"@ + spec_name_of(a),
    }
}

/// The two issue lists a record sequence gives rise to, in input order:
/// surfaced records classified as upgrades on the right, all other surfaced
/// records on the left.
pub open spec fn spec_issue_lists(s: Seq<Application>, now: int) -> (Seq<IssueRow>, Seq<
    IssueRow,
>)
    decreases s.len(),
{
    if s.len() == 0 {
        (Seq::<IssueRow>::empty(), Seq::<IssueRow>::empty())
    } else {
        let (pi, pu) = spec_issue_lists(s.drop_last(), now);
        let a = s.last();
        if spec_has_issue(spec_health_of(a), spec_sync_of(a)) {
            let row = spec_issue_row(a, now);
            if row.category == IssueCategory::UpgradeAvailable {
                (pi, pu.push(row))
            } else {
                (pi.push(row), pu)
            }
        } else {
            (pi, pu)
        }
    }
}

// ---------------------------------------------------------------------------
// Counting
// ---------------------------------------------------------------------------

/// A countable property of a record.
pub enum AppCountKind {
    Healthy,
    Progressing,
    UnknownHealth,
    Unhealthy,
    Synced,
    OutOfSync,
}

/// Whether a record has the counted property.
pub open spec fn app_matches(a: Application, k: AppCountKind) -> bool {
    match k {
        AppCountKind::Healthy => spec_health_of(a) == "Healthy"@,
        AppCountKind::Progressing => spec_health_of(a) == "Progressing"@,
        AppCountKind::UnknownHealth => spec_health_of(a) == "Unknown"@,
        AppCountKind::Unhealthy => spec_health_of(a) != "Healthy"@ && spec_health_of(a)
            != "Progressing"@ && spec_health_of(a) != "Unknown"@,
        AppCountKind::Synced => spec_sync_of(a) == "Synced"@,
        AppCountKind::OutOfSync => spec_sync_of(a) == "OutOfSync"@,
    }
}

/// Number of records with the counted property.
pub open spec fn app_count(s: Seq<Application>, k: AppCountKind) -> nat
    decreases s.len(),
{
    if s.len() == 0 {
        0
    } else {
        app_count(s.drop_last(), k) + (if app_matches(s.last(), k) {
            1nat
        } else {
            0nat
        })
    }
}

/// The health and sync literals tell each other apart.
proof fn lemma_status_literals_distinct()
    ensures
        "Healthy"@ != "Progressing"@,
        "Healthy"@ != "Unknown"@,
        "Progressing"@ != "Unknown"@,
        "Synced"@ != "OutOfSync"@,
{
    reveal_strlit("Healthy");
    reveal_strlit("Progressing");
    reveal_strlit("Unknown");
    reveal_strlit("Synced");
    reveal_strlit("OutOfSync");
    assert("Healthy"@.len() == 7);
    assert("Progressing"@.len() == 11);
    assert("Unknown"@.len() == 7);
    assert("Healthy"@[0] == 'H');
    assert("Unknown"@[0] == 'U');
    assert("Synced"@.len() == 6);
    assert("OutOfSync"@.len() == 9);
}

proof fn lemma_app_count_le(s: Seq<Application>, k: AppCountKind)
    ensures
        app_count(s, k) <= s.len(),
    decreases s.len(),
{
    if s.len() > 0 {
        lemma_app_count_le(s.drop_last(), k);
    }
}

// ---------------------------------------------------------------------------
// Extraction helpers
// ---------------------------------------------------------------------------

fn health_of(a: &Application) -> (s: String)
    ensures
        s@ == spec_health_of(*a),
{
    match &a.status {
        Some(st) => match &st.health {
            Some(h) => match &h.status {
                Some(s) => s.clone(),
                None => String::from_str("Unknown"),
            },
            None => String::from_str("Unknown"),
        },
        None => String::from_str("Unknown"),
    }
}

fn sync_of(a: &Application) -> (s: String)
    ensures
        s@ == spec_sync_of(*a),
{
    match &a.status {
        Some(st) => match &st.sync {
            Some(sy) => match &sy.status {
                Some(s) => s.clone(),
                None => String::from_str("Unknown"),
            },
            None => String::from_str("Unknown"),
        },
        None => String::from_str("Unknown"),
    }
}

fn message_of(a: &Application) -> (m: Option<String>)
    ensures
        opt_view(m) == spec_message_of(*a),
{
    let health_msg: Option<String> = match &a.status {
        Some(st) => match &st.health {
            Some(h) => match &h.message {
                Some(m) => Some(m.clone()),
                None => None,
            },
            None => None,
        },
        None => None,
    };
    match health_msg {
        Some(m) => Some(m),
        None => match &a.status {
            Some(st) => match &st.operation_state {
                Some(o) => match &o.message {
                    Some(m) => Some(m.clone()),
                    None => None,
                },
                None => None,
            },
            None => None,
        },
    }
}

fn name_of(a: &Application) -> (s: String)
    ensures
        s@ == spec_name_of(*a),
{
    match &a.metadata.name {
        Some(n) => n.clone(),
        None => String::new(),
    }
}

fn dest_ns_of(a: &Application) -> (s: String)
    ensures
        s@ == spec_dest_ns_of(*a),
{
    match &a.spec.destination {
        Some(d) => match &d.namespace {
            Some(n) => n.clone(),
            None => String::new(),
        },
        None => String::new(),
    }
}

fn target_rev_of(a: &Application) -> (r: Option<String>)
    ensures
        opt_view(r) == spec_target_rev(*a),
{
    match &a.spec.source {
        Some(src) => match &src.target_revision {
            Some(r) => Some(r.clone()),
            None => None,
        },
        None => None,
    }
}

fn current_rev_of(a: &Application) -> (r: Option<String>)
    ensures
        opt_view(r) == spec_current_rev(*a),
{
    match &a.status {
        Some(st) => match &st.sync {
            Some(s) => match &s.revision {
                Some(r) => Some(r.clone()),
                None => None,
            },
            None => None,
        },
        None => None,
    }
}

fn is_helm_of(a: &Application) -> (r: bool)
    ensures
        r == spec_is_helm(*a),
{
    match &a.spec.source {
        Some(src) => src.chart.is_some(),
        None => false,
    }
}

/// Builds the displayable issue for one surfaced record.
fn build_app_issue(a: &Application, now_epoch: i64) -> (x: AppIssue)
    ensures
        issue_row_of(x) == spec_issue_row(*a, now_epoch as int),
{
    let name = name_of(a);
    let health_status = health_of(a);
    let sync_status = sync_of(a);
    let message = message_of(a);
    let target_revision = target_rev_of(a);
    let current_revision = current_rev_of(a);
    let is_helm_chart = is_helm_of(a);
    let category = categorize_issue(
        health_status.as_str(),
        sync_status.as_str(),
        &message,
        is_helm_chart,
        &target_revision,
    );
    let (error_since, error_duration) = calculate_error_duration(&a.status, now_epoch);
    let mut argocd_url = String::from_str("https://argocd.p.zacharie.org/applications/argocd/");
    argocd_url.append(name.as_str());
    let syncable = can_sync(health_status.as_str());
    let x = AppIssue {
        name,
        namespace: dest_ns_of(a),
        health_status,
        sync_status,
        message,
        error_since,
        error_duration,
        category,
        target_revision,
        current_revision,
        is_helm_chart,
        can_sync: syncable,
        argocd_url,
    };
    x
}

// ---------------------------------------------------------------------------
// The status builder
// ---------------------------------------------------------------------------

/// Assembles the workload status summary from fetched records, dating
/// issue durations against `now_epoch` (seconds since the Unix epoch).
///
/// Every count is pinned to the record sequence, and the two issue lists
/// hold exactly the surfaced records, in input order, split by category.
pub fn get_argocd_status(apps: &ApplicationList, now_epoch: i64) -> (r: ArgoStatusResponse)
    ensures
        r.total == apps.items@.len(),
        r.healthy == app_count(apps.items@, AppCountKind::Healthy),
        r.progressing == app_count(apps.items@, AppCountKind::Progressing),
        r.unknown == app_count(apps.items@, AppCountKind::UnknownHealth),
        r.unhealthy == app_count(apps.items@, AppCountKind::Unhealthy),
        r.synced == app_count(apps.items@, AppCountKind::Synced),
        r.out_of_sync == app_count(apps.items@, AppCountKind::OutOfSync),
        r.apps_with_issues@.map_values(|x: AppIssue| issue_row_of(x)) == spec_issue_lists(
            apps.items@,
            now_epoch as int,
        ).0,
        r.apps_with_upgrades@.map_values(|x: AppIssue| issue_row_of(x)) == spec_issue_lists(
            apps.items@,
            now_epoch as int,
        ).1,
        r.upgrades_available == spec_issue_lists(apps.items@, now_epoch as int).1.len(),
{
    let ghost all = apps.items@;
    let ghost now = now_epoch as int;
    let total = apps.items.len();
    let mut healthy: usize = 0;
    let mut unhealthy: usize = 0;
    let mut synced: usize = 0;
    let mut out_of_sync: usize = 0;
    let mut unknown: usize = 0;
    let mut progressing: usize = 0;
    let mut upgrades_available: usize = 0;
    let mut apps_with_issues: Vec<AppIssue> = Vec::new();
    let mut apps_with_upgrades: Vec<AppIssue> = Vec::new();

    let mut i: usize = 0;
    proof {
        assert(all.take(0) =~= Seq::<Application>::empty());
    }
    while i < total
        invariant
            total == all.len(),
            i <= total,
            healthy == app_count(all.take(i as int), AppCountKind::Healthy),
            progressing == app_count(all.take(i as int), AppCountKind::Progressing),
            unknown == app_count(all.take(i as int), AppCountKind::UnknownHealth),
            unhealthy == app_count(all.take(i as int), AppCountKind::Unhealthy),
            synced == app_count(all.take(i as int), AppCountKind::Synced),
            out_of_sync == app_count(all.take(i as int), AppCountKind::OutOfSync),
            apps_with_issues@.map_values(|x: AppIssue| issue_row_of(x)) == spec_issue_lists(
                all.take(i as int),
                now,
            ).0,
            apps_with_upgrades@.map_values(|x: AppIssue| issue_row_of(x)) == spec_issue_lists(
                all.take(i as int),
                now,
            ).1,
            upgrades_available == spec_issue_lists(all.take(i as int), now).1.len(),
            apps.items@ == all,
            now == now_epoch as int,
        decreases total - i,
    {
        let a = &apps.items[i];
        proof {
            assert(all.take(i + 1).drop_last() =~= all.take(i as int));
            assert(all.take(i + 1).last() == all[i as int]);
            lemma_status_literals_distinct();
            lemma_app_count_le(all.take(i as int), AppCountKind::Healthy);
            lemma_app_count_le(all.take(i as int), AppCountKind::Progressing);
            lemma_app_count_le(all.take(i as int), AppCountKind::UnknownHealth);
            lemma_app_count_le(all.take(i as int), AppCountKind::Unhealthy);
            lemma_app_count_le(all.take(i as int), AppCountKind::Synced);
            lemma_app_count_le(all.take(i as int), AppCountKind::OutOfSync);
        }
        let health_status = health_of(a);
        let sync_status = sync_of(a);

        if crate::strfmt::str_eq(health_status.as_str(), "Healthy") {
            healthy += 1;
        } else if crate::strfmt::str_eq(health_status.as_str(), "Progressing") {
            progressing += 1;
        } else if crate::strfmt::str_eq(health_status.as_str(), "Unknown") {
            unknown += 1;
        } else {
            unhealthy += 1;
        }

        if crate::strfmt::str_eq(sync_status.as_str(), "Synced") {
            synced += 1;
        } else if crate::strfmt::str_eq(sync_status.as_str(), "OutOfSync") {
            out_of_sync += 1;
        }

        if has_issue(health_status.as_str(), sync_status.as_str()) {
            let issue = build_app_issue(a, now_epoch);
            proof {
                lemma_issue_lists_len(all.take(i as int), now);
            }
            if matches!(issue.category, IssueCategory::UpgradeAvailable) {
                upgrades_available += 1;
                apps_with_upgrades.push(issue);
                proof {
                    assert(apps_with_upgrades@.map_values(|x: AppIssue| issue_row_of(x))
                        =~= spec_issue_lists(all.take(i + 1), now).1);
                }
            } else {
                apps_with_issues.push(issue);
                proof {
                    assert(apps_with_issues@.map_values(|x: AppIssue| issue_row_of(x))
                        =~= spec_issue_lists(all.take(i + 1), now).0);
                }
            }
        }
        i += 1;
    }
    proof {
        assert(all.take(total as int) =~= all);
    }
    ArgoStatusResponse {
        total,
        healthy,
        unhealthy,
        synced,
        out_of_sync,
        unknown,
        progressing,
        upgrades_available,
        apps_with_issues,
        apps_with_upgrades,
    }
}

/// Both issue lists together never hold more rows than there are records.
proof fn lemma_issue_lists_len(s: Seq<Application>, now: int)
    ensures
        spec_issue_lists(s, now).0.len() + spec_issue_lists(s, now).1.len() <= s.len(),
    decreases s.len(),
{
    if s.len() > 0 {
        lemma_issue_lists_len(s.drop_last(), now);
    }
}

} // verus!
