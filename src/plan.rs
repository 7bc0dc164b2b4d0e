use vstd::prelude::*;
use crate::model::CloudConfig;
use crate::phases::DeploymentPhase;
use crate::text::text_eq;

verus! {

/// A region the server offers.
#[derive(Debug, Clone)]
pub struct Region {
    pub name: String,
    pub status: String,
}

/// The phases a bootstrap runs, in order: initialisation, networking, then
/// monitoring and backups when they are enabled.
pub open spec fn phases_spec(enable_monitoring: bool, enable_backups: bool) -> Seq<DeploymentPhase> {
    seq![DeploymentPhase::Init, DeploymentPhase::Network]
        + (if enable_monitoring { seq![DeploymentPhase::Monitoring] } else { Seq::empty() })
        + (if enable_backups { seq![DeploymentPhase::Backups] } else { Seq::empty() })
}

/// The phases to run for a configuration; `None` when it names no SSH host,
/// as there is nothing to bootstrap.
pub fn bootstrap_plan(config: &CloudConfig) -> (r: Option<Vec<DeploymentPhase>>)
    ensures
        config.ssh_hosts@.len() == 0 <==> r is None,
        r matches Some(v) ==> v@ == phases_spec(config.enable_monitoring, config.enable_backups),
{
    if config.ssh_hosts.len() == 0 {
        return None;
    }
    let mut v: Vec<DeploymentPhase> = Vec::new();
    v.push(DeploymentPhase::Init);
    v.push(DeploymentPhase::Network);
    if config.enable_monitoring {
        v.push(DeploymentPhase::Monitoring);
    }
    if config.enable_backups {
        v.push(DeploymentPhase::Backups);
    }
    assert(v@ =~= phases_spec(config.enable_monitoring, config.enable_backups));
    Some(v)
}

/// The names of the active regions, in order.
pub open spec fn active_region_names(regions: Seq<Region>) -> Seq<Seq<char>>
    decreases regions.len(),
{
    if regions.len() == 0 {
        Seq::empty()
    } else {
        let prev = active_region_names(regions.drop_last());
        if regions.last().status@ == "active"@ {
            prev.push(regions.last().name@)
        } else {
            prev
        }
    }
}

/// The choices offered for the primary region: the active regions' names,
/// then `custom`.
pub fn region_choices(regions: &Vec<Region>) -> (r: Vec<String>)
    ensures
        r@.map_values(|s: String| s@) == active_region_names(regions@).push("custom"@),
{
    let mut out: Vec<String> = Vec::new();
    let mut i: usize = 0;
    while i < regions.len()
        invariant
            i <= regions@.len(),
            out@.map_values(|s: String| s@) == active_region_names(regions@.take(i as int)),
        decreases regions@.len() - i,
    {
        proof {
            assert(regions@.take(i as int + 1).drop_last() =~= regions@.take(i as int));
        }
        let ghost before = out@;
        if text_eq(regions[i].status.as_str(), "active") {
            out.push(regions[i].name.clone());
            assert(out@.map_values(|s: String| s@) =~= before.map_values(|s: String| s@).push(regions@[i as int].name@));
        }
        i = i + 1;
    }
    proof {
        assert(regions@.take(i as int) =~= regions@);
    }
    let ghost before = out@;
    out.push(String::from_str("custom"));
    assert(out@.map_values(|s: String| s@) =~= before.map_values(|s: String| s@).push("custom"@));
    out
}

} // verus!
