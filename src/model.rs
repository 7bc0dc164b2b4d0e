use vstd::prelude::*;

verus! {

/// An SSH-reachable machine that the platform is installed on.
#[derive(Debug, Clone)]
pub struct SshHost {
    pub name: String,
    pub hostname: String,
    pub username: String,
    pub password: Option<String>,
    pub port: u16,
    pub identity_file: Option<String>,
    pub is_bastion: bool,
}

/// The platform configuration sent to the server when a cloud is initialised.
#[derive(Debug, Clone)]
pub struct CloudConfig {
    pub company_name: String,
    pub admin_name: String,
    pub cloud_name: String,
    pub region: String,
    pub ssh_hosts: Vec<SshHost>,
    pub enable_monitoring: bool,
    pub enable_backups: bool,
    pub backup_retention_days: u32,
}

/// One host's entry in a status snapshot reported by the server.
#[derive(Debug, Clone)]
pub struct HostDeploymentStatus {
    pub host: String,
    pub status: String,
    pub services: Vec<ServiceStatus>,
    pub current_step: String,
    pub progress: u8,
    pub error: Option<String>,
    pub completed: bool,
}

/// One service's entry in a status snapshot reported by the server.
#[derive(Debug, Clone)]
pub struct ServiceStatus {
    pub name: String,
    pub status: String,
    pub uptime: Option<String>,
    pub cpu: Option<String>,
    pub memory: Option<String>,
}

/// The server's packaging policy, fetched anew for every deploy.
#[derive(Debug, Clone, Copy)]
pub struct DeployPermissions {
    pub max_file_count: u64,
}

} // verus!
