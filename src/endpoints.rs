use vstd::prelude::*;
use crate::phases::DeploymentPhase;

verus! {

/// The request URL for an endpoint path under the configured base address.
pub fn request_url(base: &str, endpoint: &str) -> (r: String)
    ensures
        r@ == base@ + endpoint@,
{
    String::from_str(base).concat(endpoint)
}

/// The statuses a JSON request treats as success: 200, 201 and 202.
pub open spec fn accepted_status(code: u16) -> bool {
    code == 200 || code == 201 || code == 202
}

pub fn is_accepted_status(code: u16) -> (r: bool)
    ensures
        r == accepted_status(code),
{
    code == 200 || code == 201 || code == 202
}

pub open spec fn platform_spec(cloud: Seq<char>, tail: Seq<char>) -> Seq<char> {
    "/platforms/"@ + cloud + tail
}

pub open spec fn host_spec(cloud: Seq<char>, host: Seq<char>, tail: Seq<char>) -> Seq<char> {
    "/platforms/"@ + cloud + "/hosts/"@ + host + tail
}

pub open spec fn host_service_spec(cloud: Seq<char>, host: Seq<char>, service: Seq<char>, tail: Seq<char>) -> Seq<char> {
    "/platforms/"@ + cloud + "/hosts/"@ + host + "/services/"@ + service + tail
}

fn platform_path(cloud: &str, tail: &str) -> (r: String)
    ensures
        r@ == platform_spec(cloud@, tail@),
{
    String::from_str("/platforms/").concat(cloud).concat(tail)
}

fn host_path(cloud: &str, host: &str, tail: &str) -> (r: String)
    ensures
        r@ == host_spec(cloud@, host@, tail@),
{
    String::from_str("/platforms/").concat(cloud).concat("/hosts/").concat(host).concat(tail)
}

fn host_service_path(cloud: &str, host: &str, service: &str, tail: &str) -> (r: String)
    ensures
        r@ == host_service_spec(cloud@, host@, service@, tail@),
{
    String::from_str("/platforms/").concat(cloud).concat("/hosts/").concat(host).concat("/services/").concat(
        service,
    ).concat(tail)
}

/// The path of the request that starts a phase on the server.
pub open spec fn trigger_spec(phase: DeploymentPhase, cloud: Seq<char>, host: Seq<char>, service: Seq<char>) -> Seq<char> {
    match phase {
        DeploymentPhase::Init => "/platforms/init"@,
        DeploymentPhase::Network => platform_spec(cloud, "/network/configure"@),
        DeploymentPhase::Monitoring => platform_spec(cloud, "/monitoring/setup"@),
        DeploymentPhase::Backups => platform_spec(cloud, "/backups/setup"@),
        DeploymentPhase::ServiceRestart => host_service_spec(cloud, host, service, "/restart"@),
        DeploymentPhase::BackupTrigger => platform_spec(cloud, "/backups/trigger"@),
    }
}

/// The path polled while a phase runs.
pub open spec fn status_spec(phase: DeploymentPhase, cloud: Seq<char>, host: Seq<char>) -> Seq<char> {
    match phase {
        DeploymentPhase::ServiceRestart => host_spec(cloud, host, "/services"@),
        DeploymentPhase::BackupTrigger => platform_spec(cloud, "/backups/status"@),
        _ => platform_spec(cloud, "/status"@),
    }
}

/// The path of the request that starts `phase`; `host` and `service` name the
/// service of a restart and are not used otherwise.
pub fn trigger_endpoint(phase: DeploymentPhase, cloud: &str, host: &str, service: &str) -> (r: String)
    ensures
        r@ == trigger_spec(phase, cloud@, host@, service@),
{
    match phase {
        DeploymentPhase::Init => String::from_str("/platforms/init"),
        DeploymentPhase::Network => platform_path(cloud, "/network/configure"),
        DeploymentPhase::Monitoring => platform_path(cloud, "/monitoring/setup"),
        DeploymentPhase::Backups => platform_path(cloud, "/backups/setup"),
        DeploymentPhase::ServiceRestart => host_service_path(cloud, host, service, "/restart"),
        DeploymentPhase::BackupTrigger => platform_path(cloud, "/backups/trigger"),
    }
}

/// The path polled while `phase` runs; `host` is used by a service restart only.
pub fn status_endpoint(phase: DeploymentPhase, cloud: &str, host: &str) -> (r: String)
    ensures
        r@ == status_spec(phase, cloud@, host@),
{
    match phase {
        DeploymentPhase::ServiceRestart => host_path(cloud, host, "/services"),
        DeploymentPhase::BackupTrigger => platform_path(cloud, "/backups/status"),
        _ => platform_path(cloud, "/status"),
    }
}

/// The path of a service's log lines.
pub fn logs_endpoint(cloud: &str, host: &str, service: &str) -> (r: String)
    ensures
        r@ == host_service_spec(cloud@, host@, service@, "/logs"@),
{
    host_service_path(cloud, host, service, "/logs")
}

/// The `Authorization` header value for an API key.
pub fn bearer_value(api_key: &str) -> (r: String)
    ensures
        r@ == "Bearer "@ + api_key@,
{
    String::from_str("Bearer ").concat(api_key)
}

} // verus!
