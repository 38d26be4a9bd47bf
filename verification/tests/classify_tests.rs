use kusanagi::classify::{can_sync, categorize_issue, has_issue, IssueCategory};

fn classify(
    health: &str,
    sync: &str,
    message: Option<&str>,
    helm: bool,
    rev: Option<&str>,
) -> IssueCategory {
    let msg = message.map(|m| m.to_string());
    let rev = rev.map(|r| r.to_string());
    categorize_issue(health, sync, &msg, helm, &rev)
}

#[test]
fn healthy_out_of_sync_star_revision_is_upgrade() {
    assert_eq!(
        classify("Healthy", "OutOfSync", None, true, Some("*")),
        IssueCategory::UpgradeAvailable
    );
}

#[test]
fn progressing_wins_over_everything() {
    assert_eq!(
        classify("Progressing", "OutOfSync", Some("successfully synced"), true, Some("*")),
        IssueCategory::Progressing
    );
}

#[test]
fn degraded_synced_is_real_issue() {
    assert_eq!(classify("Degraded", "Synced", None, false, None), IssueCategory::RealIssue);
}

#[test]
fn revision_matching_is_case_insensitive() {
    assert_eq!(
        classify("Healthy", "OutOfSync", None, false, Some("LATEST")),
        IssueCategory::UpgradeAvailable
    );
    assert_eq!(
        classify("Healthy", "OutOfSync", None, false, Some("Head")),
        IssueCategory::UpgradeAvailable
    );
}

#[test]
fn pinned_revision_without_helm_is_real_issue() {
    assert_eq!(
        classify("Healthy", "OutOfSync", None, false, Some("1.2.3")),
        IssueCategory::RealIssue
    );
}

#[test]
fn synced_message_on_helm_chart_is_upgrade() {
    assert_eq!(
        classify("Healthy", "OutOfSync", Some("Successfully Synced (all tasks run)"), true, None),
        IssueCategory::UpgradeAvailable
    );
}

#[test]
fn helm_chart_alone_is_upgrade_when_healthy_out_of_sync() {
    assert_eq!(
        classify("Healthy", "OutOfSync", Some("unrelated message"), true, None),
        IssueCategory::UpgradeAvailable
    );
}

#[test]
fn healthy_but_unknown_sync_is_real_issue() {
    assert_eq!(classify("Healthy", "Unknown", None, true, None), IssueCategory::RealIssue);
}

#[test]
fn emission_rule() {
    assert!(!has_issue("Healthy", "Synced"));
    assert!(has_issue("Healthy", "OutOfSync"));
    assert!(has_issue("Healthy", "Unknown"));
    assert!(has_issue("Degraded", "Synced"));
}

#[test]
fn sync_offered_for_healthy_and_progressing_only() {
    assert!(can_sync("Healthy"));
    assert!(can_sync("Progressing"));
    assert!(!can_sync("Degraded"));
}
