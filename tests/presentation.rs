use omni_cli::model::{CloudConfig, HostDeploymentStatus, ServiceStatus, SshHost};
use omni_cli::phases::DeploymentPhase;
use omni_cli::render::{
    backup_report_source, default_cloud_name, host_mark, log_level, overall_progress_text, progress_cells,
    progress_note_host, replace_spaces, restart_note, service_rows, ssh_host_row, strip_percent, HostMark, LogLevel,
    RestartNote,
};

fn service(name: &str, status: &str) -> ServiceStatus {
    ServiceStatus { name: name.to_string(), status: status.to_string(), uptime: Some("3h".to_string()), cpu: None, memory: Some("64Mi".to_string()) }
}

fn host(name: &str, status: &str, progress: u8, step: &str, services: Vec<ServiceStatus>) -> HostDeploymentStatus {
    HostDeploymentStatus {
        host: name.to_string(),
        status: status.to_string(),
        services,
        current_step: step.to_string(),
        progress,
        error: None,
        completed: status == "completed",
    }
}

fn ssh(name: &str, bastion: bool) -> SshHost {
    SshHost {
        name: name.to_string(),
        hostname: "10.0.0.7".to_string(),
        username: "admin".to_string(),
        password: Some("pw".to_string()),
        port: 2222,
        identity_file: None,
        is_bastion: bastion,
    }
}

#[test]
fn host_marks() {
    assert_eq!(host_mark("completed"), HostMark::Completed);
    assert_eq!(host_mark("in_progress"), HostMark::InProgress);
    assert_eq!(host_mark("pending"), HostMark::Pending);
    assert_eq!(host_mark("error"), HostMark::Error);
    assert_eq!(host_mark("weird"), HostMark::Unknown);
}

#[test]
fn progress_bar_cells() {
    assert_eq!(progress_cells(&host("a", "in_progress", 0, "", vec![])), (0, 10));
    assert_eq!(progress_cells(&host("a", "in_progress", 47, "", vec![])), (4, 6));
    assert_eq!(progress_cells(&host("a", "in_progress", 100, "", vec![])), (10, 0));
    assert_eq!(progress_cells(&host("a", "in_progress", 250, "", vec![])), (10, 0));
    assert_eq!(progress_cells(&host("a", "completed", 20, "", vec![])), (10, 0));
}

#[test]
fn service_table_rows() {
    let hosts = vec![
        host("h1", "completed", 100, "", vec![service("web", "Running"), service("db", "Stopped")]),
        host("h2", "completed", 100, "", vec![]),
        host("h3", "completed", 100, "", vec![service("cache", "Running")]),
    ];
    let rows = service_rows(&hosts);
    let got: Vec<(String, String, String, String, String, String)> = rows
        .into_iter()
        .map(|r| (r.host, r.service, r.status, r.uptime, r.cpu, r.memory))
        .collect();
    let row = |h: &str, s: &str, st: &str| (h.to_string(), s.to_string(), st.to_string(), "3h".to_string(), "-".to_string(), "64Mi".to_string());
    assert_eq!(got, vec![row("h1", "web", "Running"), row("h1", "db", "Stopped"), row("h3", "cache", "Running")]);
    assert!(service_rows(&vec![]).is_empty());
}

#[test]
fn backup_report_comes_from_first_bastion_with_backup_manager() {
    let hosts = vec![
        host("h1", "completed", 100, "", vec![service("backup-manager", "Running")]),
        host("h2", "completed", 100, "", vec![service("web", "Running")]),
        host("h3", "completed", 100, "", vec![service("web", "Running"), service("backup-manager", "Running")]),
    ];
    let cfg = CloudConfig {
        company_name: "Acme".to_string(),
        admin_name: "Ada".to_string(),
        cloud_name: "acme".to_string(),
        region: "eu".to_string(),
        ssh_hosts: vec![ssh("h1", false), ssh("h2", true), ssh("h3", true)],
        enable_monitoring: true,
        enable_backups: true,
        backup_retention_days: 7,
    };
    assert_eq!(backup_report_source(&hosts, &cfg), Some((2, 1)));
    assert_eq!(backup_report_source(&hosts[..2].to_vec(), &cfg), None);
}

#[test]
fn log_levels() {
    assert_eq!(log_level("2024 [INFO] started"), LogLevel::Info);
    assert_eq!(log_level("[WARN] disk"), LogLevel::Warn);
    assert_eq!(log_level("x [ERROR] y"), LogLevel::Error);
    assert_eq!(log_level("[ERROR] then [INFO]"), LogLevel::Info);
    assert_eq!(log_level("plain"), LogLevel::Plain);
}

#[test]
fn overall_progress_from_message() {
    assert_eq!(overall_progress_text("Deployment progress is 45% complete"), "45");
    assert_eq!(overall_progress_text("Bootstrapping  hosts:\t2/3   66%%"), "66");
    assert_eq!(overall_progress_text("too short"), "0");
    assert_eq!(strip_percent("50%%"), "50");
    assert_eq!(strip_percent("%"), "");
    assert_eq!(strip_percent("a%b"), "a%b");
}

#[test]
fn progress_notes() {
    let hosts = vec![
        host("h1", "in_progress", 10, "Installing backup agent", vec![]),
        host("h2", "in_progress", 10, "Deploying monitoring stack", vec![]),
    ];
    assert_eq!(progress_note_host(DeploymentPhase::Network, &hosts), Some(0));
    assert_eq!(progress_note_host(DeploymentPhase::Monitoring, &hosts), Some(1));
    assert_eq!(progress_note_host(DeploymentPhase::Backups, &hosts), Some(0));
    assert_eq!(progress_note_host(DeploymentPhase::Init, &hosts), None);
    assert_eq!(progress_note_host(DeploymentPhase::Network, &vec![]), None);
}

#[test]
fn restart_notes() {
    let services = vec![service("api", "Restarting"), service("db", "Stopped"), service("web", "Running")];
    assert_eq!(restart_note(&services, "api"), RestartNote::Restarting);
    assert_eq!(restart_note(&services, "db"), RestartNote::Other(1));
    assert_eq!(restart_note(&services, "web"), RestartNote::Running);
    assert_eq!(restart_note(&services, "cache"), RestartNote::NotFound);
}

#[test]
fn cloud_name_defaults() {
    assert_eq!(default_cloud_name("Acme Corp"), "acme-corp-cloud");
    assert_eq!(default_cloud_name("ÉTÉ Inc"), "été-inc-cloud");
    assert_eq!(replace_spaces(" a  b "), "-a--b-");
    assert_eq!(replace_spaces(""), "");
}

#[test]
fn ssh_rows_hide_passwords() {
    let r = ssh_host_row(&ssh("gw", true));
    assert_eq!(r.name, "gw");
    assert_eq!(r.hostname, "10.0.0.7");
    assert_eq!(r.username, "admin");
    assert_eq!(r.password, "***");
    assert_eq!(r.port, 2222);
    assert_eq!(r.identity_file, "-");
    assert_eq!(r.is_bastion, "Yes");
    let mut h = ssh("n", false);
    h.identity_file = Some("/k".to_string());
    let r = ssh_host_row(&h);
    assert_eq!(r.identity_file, "/k");
    assert_eq!(r.is_bastion, "No");
}
