use vstd::prelude::*;
use crate::model::{HostDeploymentStatus, ServiceStatus};
use crate::text::{has_substring, text_contains, text_eq};

verus! {

/// The server-side operations whose progress is followed by polling.
#[derive(Debug, Clone, Copy, PartialEq, Eq, Structural)]
pub enum DeploymentPhase {
    Init,
    Network,
    Monitoring,
    Backups,
    ServiceRestart,
    BackupTrigger,
}

/// The top-level status string that ends every platform-wide phase.
pub open spec fn is_completed_status(status: Seq<char>) -> bool {
    status == "completed"@
}

/// A host's current step shows that its network configuration is done.
pub open spec fn network_step_done(h: HostDeploymentStatus) -> bool {
    has_substring(h.current_step@, "Network configuration complete"@)
        || (has_substring(h.current_step@, "network"@) && h.completed)
}

/// The host reports some service with this name.
pub open spec fn has_service(h: HostDeploymentStatus, name: Seq<char>) -> bool {
    exists|j: int| 0 <= j < h.services@.len() && #[trigger] h.services@[j].name@ == name
}

/// The host reports a service with this name whose status is `Running`.
pub open spec fn has_running_service(h: HostDeploymentStatus, name: Seq<char>) -> bool {
    exists|j: int|
        0 <= j < h.services@.len() && #[trigger] h.services@[j].name@ == name
            && h.services@[j].status@ == "Running"@
}

/// Every host has finished configuring its network.
pub open spec fn network_converged(hosts: Seq<HostDeploymentStatus>) -> bool {
    forall|i: int| 0 <= i < hosts.len() ==> network_step_done(#[trigger] hosts[i])
}

/// Every host runs the metrics collector.
pub open spec fn monitoring_converged(hosts: Seq<HostDeploymentStatus>) -> bool {
    forall|i: int| 0 <= i < hosts.len() ==> has_running_service(#[trigger] hosts[i], "metrics-collector"@)
}

/// Every host that advertises a backup manager runs it; other hosts are not considered.
pub open spec fn backups_converged(hosts: Seq<HostDeploymentStatus>) -> bool {
    forall|i: int|
        0 <= i < hosts.len() && has_service(#[trigger] hosts[i], "backup-manager"@)
            ==> has_running_service(hosts[i], "backup-manager"@)
}

/// Index of the first service with this name, if any.
pub open spec fn first_service_index(services: Seq<ServiceStatus>, name: Seq<char>) -> Option<int>
    decreases services.len(),
{
    if services.len() == 0 {
        None
    } else if services.last().name@ == name {
        match first_service_index(services.drop_last(), name) {
            Some(j) => Some(j),
            None => Some(services.len() - 1),
        }
    } else {
        first_service_index(services.drop_last(), name)
    }
}

/// The first service with this name reports `Running`.
pub open spec fn service_running(services: Seq<ServiceStatus>, name: Seq<char>) -> bool {
    match first_service_index(services, name) {
        Some(j) => services[j].status@ == "Running"@,
        None => false,
    }
}

pub fn is_completed(status: &str) -> (r: bool)
    ensures
        r == is_completed_status(status@),
{
    text_eq(status, "completed")
}

fn host_has_service(h: &HostDeploymentStatus, name: &str) -> (r: bool)
    ensures
        r == has_service(*h, name@),
{
    let mut j: usize = 0;
    while j < h.services.len()
        invariant
            j <= h.services@.len(),
            forall|k: int| 0 <= k < j ==> h.services@[k].name@ != name@,
        decreases h.services@.len() - j,
    {
        if text_eq(h.services[j].name.as_str(), name) {
            return true;
        }
        j = j + 1;
    }
    false
}

fn host_runs_service(h: &HostDeploymentStatus, name: &str) -> (r: bool)
    ensures
        r == has_running_service(*h, name@),
{
    let mut j: usize = 0;
    while j < h.services.len()
        invariant
            j <= h.services@.len(),
            forall|k: int|
                0 <= k < j ==> !(h.services@[k].name@ == name@ && h.services@[k].status@
                    == "Running"@),
        decreases h.services@.len() - j,
    {
        let s = &h.services[j];
        if text_eq(s.name.as_str(), name) && text_eq(s.status.as_str(), "Running") {
            return true;
        }
        j = j + 1;
    }
    false
}

fn host_network_done(h: &HostDeploymentStatus) -> (r: bool)
    ensures
        r == network_step_done(*h),
{
    text_contains(h.current_step.as_str(), "Network configuration complete")
        || (text_contains(h.current_step.as_str(), "network") && h.completed)
}

/// Whether every host has finished configuring its network.
pub fn network_complete(hosts: &Vec<HostDeploymentStatus>) -> (r: bool)
    ensures
        r == network_converged(hosts@),
{
    let mut i: usize = 0;
    while i < hosts.len()
        invariant
            i <= hosts@.len(),
            forall|k: int| 0 <= k < i ==> network_step_done(#[trigger] hosts@[k]),
        decreases hosts@.len() - i,
    {
        if !host_network_done(&hosts[i]) {
            return false;
        }
        i = i + 1;
    }
    true
}

/// Whether every host runs the metrics collector.
pub fn monitoring_ready(hosts: &Vec<HostDeploymentStatus>) -> (r: bool)
    ensures
        r == monitoring_converged(hosts@),
{
    let mut i: usize = 0;
    while i < hosts.len()
        invariant
            i <= hosts@.len(),
            forall|k: int| 0 <= k < i ==> has_running_service(#[trigger] hosts@[k], "metrics-collector"@),
        decreases hosts@.len() - i,
    {
        if !host_runs_service(&hosts[i], "metrics-collector") {
            return false;
        }
        i = i + 1;
    }
    true
}

/// Whether every host that advertises a backup manager runs it.
pub fn backups_ready(hosts: &Vec<HostDeploymentStatus>) -> (r: bool)
    ensures
        r == backups_converged(hosts@),
{
    let mut i: usize = 0;
    while i < hosts.len()
        invariant
            i <= hosts@.len(),
            forall|k: int|
                0 <= k < i && has_service(#[trigger] hosts@[k], "backup-manager"@)
                    ==> has_running_service(hosts@[k], "backup-manager"@),
        decreases hosts@.len() - i,
    {
        if host_has_service(&hosts[i], "backup-manager") && !host_runs_service(&hosts[i], "backup-manager") {
            return false;
        }
        i = i + 1;
    }
    true
}

/// Position of the first service with this name.
pub fn find_service(services: &Vec<ServiceStatus>, name: &str) -> (r: Option<usize>)
    ensures
        r matches Some(j) ==> j < services@.len() && first_service_index(services@, name@) == Some(j as int),
        r is None ==> first_service_index(services@, name@) is None,
{
    let mut j: usize = 0;
    while j < services.len()
        invariant
            j <= services@.len(),
            first_service_index(services@.subrange(0, j as int), name@) is None,
        decreases services@.len() - j,
    {
        if text_eq(services[j].name.as_str(), name) {
            proof {
                let s = services@.subrange(0, j as int + 1);
                assert(s.drop_last() =~= services@.subrange(0, j as int));
                lemma_first_index_prefix(services@, name@, j as int + 1);
            }
            return Some(j);
        }
        proof {
            let s = services@.subrange(0, j as int + 1);
            assert(s.drop_last() =~= services@.subrange(0, j as int));
        }
        j = j + 1;
    }
    assert(services@.subrange(0, j as int) =~= services@);
    None
}

/// A match found in a prefix is the first match of the whole sequence.
proof fn lemma_first_index_prefix(services: Seq<ServiceStatus>, name: Seq<char>, n: int)
    requires
        0 <= n <= services.len(),
        first_service_index(services.subrange(0, n), name) is Some,
    ensures
        first_service_index(services, name) == first_service_index(services.subrange(0, n), name),
    decreases services.len() - n,
{
    if n < services.len() {
        let s = services.subrange(0, n + 1);
        assert(s.drop_last() =~= services.subrange(0, n));
        lemma_first_index_prefix(services, name, n + 1);
    } else {
        assert(services.subrange(0, n) =~= services);
    }
}

/// Whether the first service with this name reports `Running`.
pub fn service_is_running(services: &Vec<ServiceStatus>, name: &str) -> (r: bool)
    ensures
        r == service_running(services@, name@),
{
    match find_service(services, name) {
        Some(j) => text_eq(services[j].status.as_str(), "Running"),
        None => false,
    }
}

} // verus!
