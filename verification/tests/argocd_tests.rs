use kusanagi::argocd::{
    calculate_error_duration, get_argocd_status, Application, ApplicationDestination,
    ApplicationList, ApplicationMetadata, ApplicationSource, ApplicationSpec, ApplicationStatus,
    HealthStatus, OperationState, SyncStatus,
};
use kusanagi::classify::IssueCategory;

// 2024-01-01T00:00:00Z in epoch seconds.
const T0: i64 = 1_704_067_200;

fn app(name: &str, health: &str, sync: &str, chart: Option<&str>) -> Application {
    Application {
        metadata: ApplicationMetadata { name: Some(name.to_string()), namespace: None },
        spec: ApplicationSpec {
            project: None,
            source: Some(ApplicationSource {
                repo_url: None,
                path: None,
                target_revision: None,
                chart: chart.map(|c| c.to_string()),
            }),
            destination: Some(ApplicationDestination {
                server: None,
                namespace: Some("prod".to_string()),
            }),
        },
        status: Some(ApplicationStatus {
            sync: Some(SyncStatus {
                status: Some(sync.to_string()),
                revision: None,
                compared_to: None,
            }),
            health: Some(HealthStatus { status: Some(health.to_string()), message: None }),
            operation_state: None,
            reconciled_at: None,
            resources: None,
        }),
    }
}

#[test]
fn healthy_synced_records_are_dropped() {
    let list = ApplicationList { items: vec![app("calm", "Healthy", "Synced", None)] };
    let r = get_argocd_status(&list, T0);
    assert_eq!(r.total, 1);
    assert_eq!(r.healthy, 1);
    assert_eq!(r.apps_with_issues.len(), 0);
    assert_eq!(r.apps_with_upgrades.len(), 0);
}

#[test]
fn counts_and_split_by_category() {
    let list = ApplicationList {
        items: vec![
            app("calm", "Healthy", "Synced", None),
            app("broken", "Degraded", "Synced", None),
            app("charted", "Healthy", "OutOfSync", Some("nginx")),
            app("busy", "Progressing", "OutOfSync", None),
        ],
    };
    let r = get_argocd_status(&list, T0);
    assert_eq!(r.total, 4);
    assert_eq!(r.healthy, 2);
    assert_eq!(r.unhealthy, 1);
    assert_eq!(r.progressing, 1);
    assert_eq!(r.synced, 2);
    assert_eq!(r.out_of_sync, 2);
    assert_eq!(r.upgrades_available, 1);
    assert_eq!(r.apps_with_upgrades.len(), 1);
    assert_eq!(r.apps_with_upgrades[0].name, "charted");
    assert_eq!(r.apps_with_upgrades[0].category, IssueCategory::UpgradeAvailable);
    assert!(r.apps_with_upgrades[0].is_helm_chart);
    assert_eq!(
        r.apps_with_upgrades[0].argocd_url,
        "https://argocd.p.zacharie.org/applications/argocd/charted"
    );
    assert_eq!(r.apps_with_issues.len(), 2);
    assert_eq!(r.apps_with_issues[0].name, "broken");
    assert_eq!(r.apps_with_issues[0].category, IssueCategory::RealIssue);
    assert_eq!(r.apps_with_issues[0].namespace, "prod");
    assert!(!r.apps_with_issues[0].can_sync);
    assert_eq!(r.apps_with_issues[1].name, "busy");
    assert_eq!(r.apps_with_issues[1].category, IssueCategory::Progressing);
    assert!(r.apps_with_issues[1].can_sync);
}

#[test]
fn missing_status_reads_unknown_and_surfaces() {
    let bare = Application {
        metadata: ApplicationMetadata { name: Some("bare".to_string()), namespace: None },
        spec: ApplicationSpec { project: None, source: None, destination: None },
        status: None,
    };
    let r = get_argocd_status(&ApplicationList { items: vec![bare] }, T0);
    assert_eq!(r.unknown, 1);
    assert_eq!(r.apps_with_issues.len(), 1);
    assert_eq!(r.apps_with_issues[0].health_status, "Unknown");
    assert_eq!(r.apps_with_issues[0].sync_status, "Unknown");
}

#[test]
fn error_duration_prefers_the_operation_start() {
    let status = Some(ApplicationStatus {
        sync: None,
        health: None,
        operation_state: Some(OperationState {
            phase: None,
            message: None,
            started_at: Some("2024-01-01T00:00:00Z".to_string()),
            finished_at: None,
            sync_result: None,
        }),
        reconciled_at: Some("2023-12-31T00:00:00Z".to_string()),
        resources: None,
    });
    // A day and an hour after the operation started.
    let (since, duration) = calculate_error_duration(&status, T0 + 90_000);
    assert_eq!(since.as_deref(), Some("2024-01-01T00:00:00Z"));
    assert_eq!(duration.as_deref(), Some("1d 1h"));
}

#[test]
fn unparseable_timestamp_is_surfaced_without_a_duration() {
    let status = Some(ApplicationStatus {
        sync: None,
        health: None,
        operation_state: Some(OperationState {
            phase: None,
            message: None,
            started_at: Some("not a timestamp".to_string()),
            finished_at: None,
            sync_result: None,
        }),
        reconciled_at: None,
        resources: None,
    });
    let (since, duration) = calculate_error_duration(&status, T0);
    assert_eq!(since.as_deref(), Some("not a timestamp"));
    assert_eq!(duration, None);
}

#[test]
fn reconciled_at_is_the_fallback() {
    let status = Some(ApplicationStatus {
        sync: None,
        health: None,
        operation_state: None,
        reconciled_at: Some("2024-01-01T00:00:00Z".to_string()),
        resources: None,
    });
    let (since, duration) = calculate_error_duration(&status, T0 + 45);
    assert_eq!(since.as_deref(), Some("2024-01-01T00:00:00Z"));
    assert_eq!(duration.as_deref(), Some("45s"));
}

#[test]
fn clock_skew_reads_just_now() {
    let status = Some(ApplicationStatus {
        sync: None,
        health: None,
        operation_state: None,
        reconciled_at: Some("2024-01-01T00:00:00Z".to_string()),
        resources: None,
    });
    let (_, duration) = calculate_error_duration(&status, T0 - 5);
    assert_eq!(duration.as_deref(), Some("just now"));
}
