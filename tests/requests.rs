use omni_cli::endpoints::{bearer_value, is_accepted_status, logs_endpoint, request_url, status_endpoint, trigger_endpoint};
use omni_cli::model::{CloudConfig, SshHost};
use omni_cli::phases::DeploymentPhase;
use omni_cli::plan::{bootstrap_plan, region_choices, Region};
use omni_cli::upload::{needs_deploy_confirmation, release_identifier, upload_outcome, upload_url, UploadError, UploadSession};

fn ssh(name: &str, bastion: bool) -> SshHost {
    SshHost {
        name: name.to_string(),
        hostname: "10.0.0.1".to_string(),
        username: "root".to_string(),
        password: None,
        port: 22,
        identity_file: Some("~/.ssh/id_rsa".to_string()),
        is_bastion: bastion,
    }
}

fn config(hosts: Vec<SshHost>, monitoring: bool, backups: bool) -> CloudConfig {
    CloudConfig {
        company_name: "Acme".to_string(),
        admin_name: "Ada".to_string(),
        cloud_name: "acme-cloud".to_string(),
        region: "eu-1".to_string(),
        ssh_hosts: hosts,
        enable_monitoring: monitoring,
        enable_backups: backups,
        backup_retention_days: 30,
    }
}

#[test]
fn request_urls() {
    assert_eq!(request_url("http://localhost:8002/api/v1", "/deploy/permissions"), "http://localhost:8002/api/v1/deploy/permissions");
    assert!(is_accepted_status(200));
    assert!(is_accepted_status(201));
    assert!(is_accepted_status(202));
    assert!(!is_accepted_status(204));
    assert!(!is_accepted_status(404));
}

#[test]
fn phase_endpoints() {
    assert_eq!(trigger_endpoint(DeploymentPhase::Init, "c1", "", ""), "/platforms/init");
    assert_eq!(trigger_endpoint(DeploymentPhase::Network, "c1", "", ""), "/platforms/c1/network/configure");
    assert_eq!(trigger_endpoint(DeploymentPhase::Monitoring, "c1", "", ""), "/platforms/c1/monitoring/setup");
    assert_eq!(trigger_endpoint(DeploymentPhase::Backups, "c1", "", ""), "/platforms/c1/backups/setup");
    assert_eq!(trigger_endpoint(DeploymentPhase::BackupTrigger, "c1", "", ""), "/platforms/c1/backups/trigger");
    assert_eq!(
        trigger_endpoint(DeploymentPhase::ServiceRestart, "c1", "web-1", "nginx"),
        "/platforms/c1/hosts/web-1/services/nginx/restart"
    );
    assert_eq!(status_endpoint(DeploymentPhase::Network, "c1", ""), "/platforms/c1/status");
    assert_eq!(status_endpoint(DeploymentPhase::Init, "c1", ""), "/platforms/c1/status");
    assert_eq!(status_endpoint(DeploymentPhase::ServiceRestart, "c1", "web-1"), "/platforms/c1/hosts/web-1/services");
    assert_eq!(status_endpoint(DeploymentPhase::BackupTrigger, "c1", ""), "/platforms/c1/backups/status");
    assert_eq!(logs_endpoint("c1", "web-1", "nginx"), "/platforms/c1/hosts/web-1/services/nginx/logs");
}

#[test]
fn upload_session_for_release() {
    assert_eq!(release_identifier("1234"), "u-1234");
    assert_eq!(upload_url("http://h/api", "shop", "u-9"), "http://h/api/apps/shop/releases/u-9/upload");
    let s = UploadSession::for_release("http://h/api", "shop", "Staging", "abc");
    assert_eq!(s.release_id, "u-abc");
    assert_eq!(s.url, "http://h/api/apps/shop/releases/u-abc/upload");
    assert_eq!(s.environment, "Staging");
    assert_eq!(s.file_name, "shop");
}

#[test]
fn fresh_upload_sessions_have_distinct_release_ids() {
    let a = UploadSession::new("http://h/api", "shop", "Production");
    let b = UploadSession::new("http://h/api", "shop", "Production");
    assert!(a.release_id.starts_with("u-"));
    assert_eq!(a.release_id.len(), 38);
    let text: Vec<char> = a.release_id[2..].chars().collect();
    for (i, c) in text.iter().enumerate() {
        if i == 8 || i == 13 || i == 18 || i == 23 {
            assert_eq!(*c, '-');
        } else {
            assert!(c.is_ascii_hexdigit() && !c.is_ascii_uppercase());
        }
    }
    assert_ne!(a.release_id, b.release_id);
    assert_eq!(a.url, format!("http://h/api/apps/shop/releases/{}/upload", a.release_id));
}

#[test]
fn upload_outcomes() {
    assert!(upload_outcome(200, None).is_ok());
    assert!(upload_outcome(201, Some("created".to_string())).is_ok());
    assert!(upload_outcome(299, None).is_ok());
    assert_eq!(upload_outcome(500, Some("boom".to_string())), Err(UploadError { status: 500, body: "boom".to_string() }));
    assert_eq!(upload_outcome(413, None), Err(UploadError { status: 413, body: "No error message".to_string() }));
    assert!(upload_outcome(302, None).is_err());
}

#[test]
fn bootstrap_plans() {
    assert_eq!(bootstrap_plan(&config(vec![], true, true)), None);
    assert_eq!(
        bootstrap_plan(&config(vec![ssh("a", false)], true, true)),
        Some(vec![DeploymentPhase::Init, DeploymentPhase::Network, DeploymentPhase::Monitoring, DeploymentPhase::Backups])
    );
    assert_eq!(
        bootstrap_plan(&config(vec![ssh("a", false)], false, true)),
        Some(vec![DeploymentPhase::Init, DeploymentPhase::Network, DeploymentPhase::Backups])
    );
    assert_eq!(
        bootstrap_plan(&config(vec![ssh("a", false)], false, false)),
        Some(vec![DeploymentPhase::Init, DeploymentPhase::Network])
    );
}

#[test]
fn region_choices_keep_active_regions_then_custom() {
    let regions = vec![
        Region { name: "eu-1".to_string(), status: "active".to_string() },
        Region { name: "us-2".to_string(), status: "retired".to_string() },
        Region { name: "ap-3".to_string(), status: "active".to_string() },
    ];
    assert_eq!(region_choices(&regions), vec!["eu-1", "ap-3", "custom"]);
    assert_eq!(region_choices(&vec![]), vec!["custom"]);
}

#[test]
fn authorization_and_confirmation_rules() {
    assert_eq!(bearer_value("k-123"), "Bearer k-123");
    assert!(needs_deploy_confirmation("Production"));
    assert!(!needs_deploy_confirmation("Staging"));
    assert!(!needs_deploy_confirmation("production"));
}
