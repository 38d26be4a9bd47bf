//! Issue classification: a total decision table from raw status fields to a
//! category, and the rule deciding which records are surfaced at all.

use vstd::prelude::*;
use crate::strfmt::{contains_ci, eq_ci, str_contains_ci, str_eq, str_eq_ci};

verus! {

/// The kind of issue a workload record represents.
#[derive(Clone, Copy, Debug, PartialEq, Eq, Structural)]
pub enum IssueCategory {
    RealIssue,
    UpgradeAvailable,
    Progressing,
}

/// A target revision that tracks a moving head, so an out-of-sync state
/// means an upgrade is available: `*`, `latest` or `head`, case-insensitively.
pub open spec fn upgrade_revision(rev: Seq<char>) -> bool {
    ||| eq_ci(rev, "*"@)
    ||| eq_ci(rev, "latest"@)
    ||| eq_ci(rev, "head"@)
}

/// A status message that reports an earlier successful sync,
/// case-insensitively.
pub open spec fn upgrade_message(msg: Seq<char>) -> bool {
    ||| contains_ci(msg, "successfully synced"@)
    ||| contains_ci(msg, "no more tasks"@)
    ||| contains_ci(msg, "all tasks run"@)
}

/// The classification decision table. Total and deterministic: rules apply
/// in order, first match wins.
///
/// 1. Health `Progressing` is `Progressing`.
/// 2. Healthy but out of sync: an upgrade-tracking revision, a
///    successfully-synced message on a Helm chart, or any Helm chart,
///    is `UpgradeAvailable`.
/// 3. Everything else is `RealIssue`.
pub open spec fn spec_categorize(
    health: Seq<char>,
    sync: Seq<char>,
    message: Option<Seq<char>>,
    is_helm_chart: bool,
    target_revision: Option<Seq<char>>,
) -> IssueCategory {
    if health == "Progressing"@ {
        IssueCategory::Progressing
    } else if health == "Healthy"@ && sync == "OutOfSync"@ {
        if target_revision is Some && upgrade_revision(target_revision->0) {
            IssueCategory::UpgradeAvailable
        } else if message is Some && upgrade_message(message->0) && is_helm_chart {
            IssueCategory::UpgradeAvailable
        } else if is_helm_chart {
            IssueCategory::UpgradeAvailable
        } else {
            IssueCategory::RealIssue
        }
    } else {
        IssueCategory::RealIssue
    }
}

/// The view of an optional string.
pub open spec fn opt_view(s: Option<String>) -> Option<Seq<char>> {
    match s {
        Some(x) => Some(x@),
        None => None,
    }
}

/// Classifies one workload record.
pub fn categorize_issue(
    health_status: &str,
    sync_status: &str,
    message: &Option<String>,
    is_helm_chart: bool,
    target_revision: &Option<String>,
) -> (r: IssueCategory)
    ensures
        r == spec_categorize(
            health_status@,
            sync_status@,
            opt_view(*message),
            is_helm_chart,
            opt_view(*target_revision),
        ),
{
    if str_eq(health_status, "Progressing") {
        return IssueCategory::Progressing;
    }
    if str_eq(health_status, "Healthy") && str_eq(sync_status, "OutOfSync") {
        if let Some(rev) = target_revision {
            if str_eq_ci(rev.as_str(), "*") || str_eq_ci(rev.as_str(), "latest") || str_eq_ci(
                rev.as_str(),
                "head",
            ) {
                return IssueCategory::UpgradeAvailable;
            }
        }
        if let Some(msg) = message {
            if str_contains_ci(msg.as_str(), "successfully synced") || str_contains_ci(
                msg.as_str(),
                "no more tasks",
            ) || str_contains_ci(msg.as_str(), "all tasks run") {
                if is_helm_chart {
                    return IssueCategory::UpgradeAvailable;
                }
            }
        }
        if is_helm_chart {
            return IssueCategory::UpgradeAvailable;
        }
    }
    IssueCategory::RealIssue
}

/// A record is surfaced as an issue exactly when it is not healthy, is out
/// of sync, or its sync state is unknown.
pub open spec fn spec_has_issue(health: Seq<char>, sync: Seq<char>) -> bool {
    ||| health != "Healthy"@
    ||| sync == "OutOfSync"@
    ||| sync == "Unknown"@
}

/// Decides whether a record is surfaced as an issue.
pub fn has_issue(health_status: &str, sync_status: &str) -> (r: bool)
    ensures
        r == spec_has_issue(health_status@, sync_status@),
{
    !str_eq(health_status, "Healthy") || str_eq(sync_status, "OutOfSync") || str_eq(
        sync_status,
        "Unknown",
    )
}

/// A workload may be synced from the dashboard while it is healthy or
/// still progressing.
pub open spec fn spec_can_sync(health: Seq<char>) -> bool {
    health == "Healthy"@ || health == "Progressing"@
}

/// Decides whether a sync action is offered for a record.
pub fn can_sync(health_status: &str) -> (r: bool)
    ensures
        r == spec_can_sync(health_status@),
{
    str_eq(health_status, "Healthy") || str_eq(health_status, "Progressing")
}

/// Rule order: a progressing workload is classified `Progressing`, whatever
/// the other fields say.
pub proof fn lemma_categorize_progressing(
    sync: Seq<char>,
    message: Option<Seq<char>>,
    is_helm_chart: bool,
    target_revision: Option<Seq<char>>,
)
    ensures
        spec_categorize("Progressing"@, sync, message, is_helm_chart, target_revision)
            == IssueCategory::Progressing,
{
}

/// Rule order: a healthy, out-of-sync workload with an upgrade-tracking
/// revision is an available upgrade, whatever the message says.
pub proof fn lemma_categorize_upgrade_revision(
    message: Option<Seq<char>>,
    is_helm_chart: bool,
    rev: Seq<char>,
)
    requires
        upgrade_revision(rev),
    ensures
        spec_categorize("Healthy"@, "OutOfSync"@, message, is_helm_chart, Some(rev))
            == IssueCategory::UpgradeAvailable,
{
    reveal_strlit("Healthy");
    reveal_strlit("Progressing");
    assert("Healthy"@.len() != "Progressing"@.len());
}

/// Rule order: a workload that is neither progressing nor healthy-but-out-
/// of-sync is always a real issue.
pub proof fn lemma_categorize_real_issue(
    health: Seq<char>,
    sync: Seq<char>,
    message: Option<Seq<char>>,
    is_helm_chart: bool,
    target_revision: Option<Seq<char>>,
)
    requires
        health != "Progressing"@,
        !(health == "Healthy"@ && sync == "OutOfSync"@),
    ensures
        spec_categorize(health, sync, message, is_helm_chart, target_revision)
            == IssueCategory::RealIssue,
{
}

/// Healthy and synced records are never surfaced.
pub proof fn lemma_healthy_synced_not_surfaced()
    ensures
        !spec_has_issue("Healthy"@, "Synced"@),
{
    reveal_strlit("Synced");
    reveal_strlit("OutOfSync");
    reveal_strlit("Unknown");
    assert("Synced"@.len() == 6);
    assert("OutOfSync"@.len() == 9);
    assert("Unknown"@.len() == 7);
}

} // verus!
