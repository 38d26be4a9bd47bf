use kusanagi::ingress::{get_ingresses, IngressRecord, IngressRuleRecord};
use kusanagi::pods::force_delete_response;
use kusanagi::services::{format_coarse_age, get_services, ServicePortRecord, ServiceRecord};

// 2024-01-01T00:00:00Z in epoch seconds.
const T0: i64 = 1_704_067_200;

#[test]
fn coarse_ages_pick_one_unit() {
    assert_eq!(format_coarse_age(3 * 86_400 + 7), "3d");
    assert_eq!(format_coarse_age(7_200), "2h");
    assert_eq!(format_coarse_age(120), "2m");
    assert_eq!(format_coarse_age(59), "0m");
    assert_eq!(format_coarse_age(-30), "0m");
}

#[test]
fn services_render_ports_and_ages() {
    let svc = ServiceRecord {
        name: Some("web".to_string()),
        namespace: Some("prod".to_string()),
        service_type: Some("ClusterIP".to_string()),
        cluster_ip: Some("10.0.0.1".to_string()),
        external_ip: None,
        ports: vec![
            ServicePortRecord {
                port: 80,
                target_port: Some("8080".to_string()),
                protocol: Some("TCP".to_string()),
            },
            ServicePortRecord {
                port: 443,
                target_port: Some("https".to_string()),
                protocol: Some("TCP".to_string()),
            },
        ],
        created_at: Some("2024-01-01T00:00:00Z".to_string()),
    };
    let r = get_services(&vec![svc], T0 + 2 * 86_400);
    assert_eq!(r.len(), 1);
    assert_eq!(r[0].name, "web");
    assert_eq!(r[0].type_, "ClusterIP");
    assert_eq!(r[0].ports, "80:8080/TCP, 443:https/TCP");
    assert_eq!(r[0].age, "2d");
}

#[test]
fn bare_service_reads_empty_fields() {
    let svc = ServiceRecord {
        name: None,
        namespace: None,
        service_type: None,
        cluster_ip: None,
        external_ip: None,
        ports: Vec::new(),
        created_at: None,
    };
    let r = get_services(&vec![svc], T0);
    assert_eq!(r[0].name, "");
    assert_eq!(r[0].ports, "");
    assert_eq!(r[0].age, "0m");
}

#[test]
fn ingress_rules_flatten_hosts_and_paths() {
    let ing = IngressRecord {
        name: Some("edge".to_string()),
        namespace: Some("prod".to_string()),
        load_balancer: Some("192.0.2.1".to_string()),
        rules: vec![
            IngressRuleRecord {
                host: Some("example.org".to_string()),
                http_paths: Some(vec![Some("/api".to_string()), Some("/ui".to_string()), None]),
            },
            IngressRuleRecord { host: None, http_paths: None },
        ],
        created_at: Some("2024-01-01T00:00:00Z".to_string()),
    };
    let r = get_ingresses(&vec![ing], T0 + 3_600);
    assert_eq!(r.len(), 1);
    assert_eq!(
        r[0].rules,
        vec![
            "example.org/api".to_string(),
            "example.org/ui".to_string(),
            "example.org".to_string(),
            "*".to_string(),
        ]
    );
    assert_eq!(r[0].load_balancer.as_deref(), Some("192.0.2.1"));
    assert_eq!(r[0].age, "1h");
}

#[test]
fn force_delete_replies_name_the_pod() {
    let ok = force_delete_response("media", "stuck", None);
    assert!(ok.success);
    assert_eq!(ok.message, "Pod stuck successfully force deleted");
    assert_eq!(ok.pod_name, "stuck");
    assert_eq!(ok.namespace, "media");

    let failed = force_delete_response("media", "stuck", Some("not found"));
    assert!(!failed.success);
    assert_eq!(failed.message, "Failed to delete pod media/stuck: not found");
}
