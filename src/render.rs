use vstd::prelude::*;
use crate::model::{CloudConfig, HostDeploymentStatus, ServiceStatus, SshHost};
use crate::phases::{first_service_index, has_service, DeploymentPhase};
use crate::phases::find_service;
use crate::text::{has_substring, text_contains, text_eq};

verus! {

/// How a host's line in the deployment status block is marked.
#[derive(Debug, Clone, Copy, PartialEq, Eq, Structural)]
pub enum HostMark {
    Completed,
    InProgress,
    Pending,
    Error,
    Unknown,
}

pub open spec fn mark_spec(status: Seq<char>) -> HostMark {
    if status == "completed"@ {
        HostMark::Completed
    } else if status == "in_progress"@ {
        HostMark::InProgress
    } else if status == "pending"@ {
        HostMark::Pending
    } else if status == "error"@ {
        HostMark::Error
    } else {
        HostMark::Unknown
    }
}

/// The mark for a host's coarse status.
pub fn host_mark(status: &str) -> (r: HostMark)
    ensures
        r == mark_spec(status@),
{
    if text_eq(status, "completed") {
        HostMark::Completed
    } else if text_eq(status, "in_progress") {
        HostMark::InProgress
    } else if text_eq(status, "pending") {
        HostMark::Pending
    } else if text_eq(status, "error") {
        HostMark::Error
    } else {
        HostMark::Unknown
    }
}

/// Filled cells of a host's ten-cell progress bar: all of them once the host
/// has completed, else one per ten percent, at most ten.
pub open spec fn filled_cells_spec(status: Seq<char>, progress: u8) -> nat {
    if status == "completed"@ {
        10
    } else if progress >= 100 {
        10
    } else {
        (progress / 10) as nat
    }
}

/// The filled and empty cells of a host's ten-cell progress bar.
pub fn progress_cells(h: &HostDeploymentStatus) -> (r: (usize, usize))
    ensures
        r.0 == filled_cells_spec(h.status@, h.progress),
        r.0 + r.1 == 10,
{
    let filled: usize = if text_eq(h.status.as_str(), "completed") {
        10
    } else if h.progress >= 100 {
        10
    } else {
        (h.progress / 10) as usize
    };
    (filled, 10 - filled)
}

/// One row of the service table.
#[derive(Debug, Clone)]
pub struct ServiceRow {
    pub host: String,
    pub service: String,
    pub status: String,
    pub uptime: String,
    pub cpu: String,
    pub memory: String,
}

pub type RowModel = (Seq<char>, Seq<char>, Seq<char>, Seq<char>, Seq<char>, Seq<char>);

impl View for ServiceRow {
    type V = RowModel;

    open spec fn view(&self) -> RowModel {
        (self.host@, self.service@, self.status@, self.uptime@, self.cpu@, self.memory@)
    }
}

/// An optional field as shown in a table: its text, or `-`.
pub open spec fn or_dash(o: Option<String>) -> Seq<char> {
    match o {
        Some(s) => s@,
        None => "-"@,
    }
}

pub open spec fn row_of(h: HostDeploymentStatus, s: ServiceStatus) -> RowModel {
    (h.host@, s.name@, s.status@, or_dash(s.uptime), or_dash(s.cpu), or_dash(s.memory))
}

pub open spec fn host_rows(h: HostDeploymentStatus) -> Seq<RowModel> {
    h.services@.map_values(|s: ServiceStatus| row_of(h, s))
}

/// The service table: one row per service, host by host, in reported order.
pub open spec fn rows_spec(hosts: Seq<HostDeploymentStatus>) -> Seq<RowModel>
    decreases hosts.len(),
{
    if hosts.len() == 0 {
        Seq::empty()
    } else {
        rows_spec(hosts.drop_last()) + host_rows(hosts.last())
    }
}

fn dash_or(o: &Option<String>) -> (r: String)
    ensures
        r@ == or_dash(*o),
{
    match o {
        Some(s) => s.clone(),
        None => String::from_str("-"),
    }
}

/// The rows of the service table for a status snapshot.
pub fn service_rows(hosts: &Vec<HostDeploymentStatus>) -> (r: Vec<ServiceRow>)
    ensures
        r@.map_values(|x: ServiceRow| x@) == rows_spec(hosts@),
{
    let mut out: Vec<ServiceRow> = Vec::new();
    let mut i: usize = 0;
    while i < hosts.len()
        invariant
            i <= hosts@.len(),
            out@.map_values(|x: ServiceRow| x@) == rows_spec(hosts@.take(i as int)),
        decreases hosts@.len() - i,
    {
        let h = &hosts[i];
        let ghost base = out@.map_values(|x: ServiceRow| x@);
        let mut j: usize = 0;
        while j < h.services.len()
            invariant
                i < hosts@.len(),
                *h == hosts@[i as int],
                j <= h.services@.len(),
                out@.map_values(|x: ServiceRow| x@) == base + host_rows(*h).take(j as int),
            decreases h.services@.len() - j,
        {
            let s = &h.services[j];
            let row = ServiceRow {
                host: h.host.clone(),
                service: s.name.clone(),
                status: s.status.clone(),
                uptime: dash_or(&s.uptime),
                cpu: dash_or(&s.cpu),
                memory: dash_or(&s.memory),
            };
            let ghost prev = out@;
            out.push(row);
            proof {
                assert(host_rows(*h).take(j as int + 1) =~= host_rows(*h).take(j as int).push(row_of(*h, h.services@[j as int])));
                assert(out@.map_values(|x: ServiceRow| x@) =~= prev.map_values(|x: ServiceRow| x@).push(row@));
            }
            j = j + 1;
        }
        proof {
            assert(host_rows(*h).take(j as int) =~= host_rows(*h));
            assert(hosts@.take(i as int + 1).drop_last() =~= hosts@.take(i as int));
        }
        i = i + 1;
    }
    proof {
        assert(hosts@.take(i as int) =~= hosts@);
    }
    out
}

/// The configuration marks a host of this name as a bastion.
pub open spec fn is_bastion_host(config: CloudConfig, name: Seq<char>) -> bool {
    exists|k: int| 0 <= k < config.ssh_hosts@.len() && #[trigger] config.ssh_hosts@[k].name@ == name
        && config.ssh_hosts@[k].is_bastion
}

/// A host whose backup manager describes the backups.
pub open spec fn reports_backups(config: CloudConfig, h: HostDeploymentStatus) -> bool {
    is_bastion_host(config, h.host@) && has_service(h, "backup-manager"@)
}

fn bastion_named(config: &CloudConfig, name: &str) -> (r: bool)
    ensures
        r == is_bastion_host(*config, name@),
{
    let mut k: usize = 0;
    while k < config.ssh_hosts.len()
        invariant
            k <= config.ssh_hosts@.len(),
            forall|m: int| 0 <= m < k ==> !(config.ssh_hosts@[m].name@ == name@ && config.ssh_hosts@[m].is_bastion),
        decreases config.ssh_hosts@.len() - k,
    {
        if text_eq(config.ssh_hosts[k].name.as_str(), name) && config.ssh_hosts[k].is_bastion {
            return true;
        }
        k = k + 1;
    }
    false
}

fn has_backup_manager(h: &HostDeploymentStatus) -> (r: Option<usize>)
    ensures
        r is Some <==> has_service(*h, "backup-manager"@),
        r matches Some(j) ==> j < h.services@.len() && h.services@[j as int].name@ == "backup-manager"@,
{
    let mut j: usize = 0;
    while j < h.services.len()
        invariant
            j <= h.services@.len(),
            forall|m: int| 0 <= m < j ==> h.services@[m].name@ != "backup-manager"@,
        decreases h.services@.len() - j,
    {
        if text_eq(h.services[j].name.as_str(), "backup-manager") {
            return Some(j);
        }
        j = j + 1;
    }
    None
}

/// The first bastion host of the snapshot that runs a backup manager, with the
/// position of that service among its services.
pub fn backup_report_source(hosts: &Vec<HostDeploymentStatus>, config: &CloudConfig) -> (r: Option<(usize, usize)>)
    ensures
        r is None ==> forall|i: int| 0 <= i < hosts@.len() ==> !reports_backups(*config, #[trigger] hosts@[i]),
        r matches Some(p) ==> p.0 < hosts@.len() && reports_backups(*config, hosts@[p.0 as int])
            && forall|i: int| 0 <= i < p.0 ==> !reports_backups(*config, #[trigger] hosts@[i]),
        r matches Some(p) ==> p.1 < hosts@[p.0 as int].services@.len()
            && hosts@[p.0 as int].services@[p.1 as int].name@ == "backup-manager"@,
{
    let mut i: usize = 0;
    while i < hosts.len()
        invariant
            i <= hosts@.len(),
            forall|m: int| 0 <= m < i ==> !reports_backups(*config, #[trigger] hosts@[m]),
        decreases hosts@.len() - i,
    {
        if bastion_named(config, hosts[i].host.as_str()) {
            match has_backup_manager(&hosts[i]) {
                Some(j) => return Some((i, j)),
                None => {},
            }
        }
        i = i + 1;
    }
    None
}

/// How a log line is highlighted.
#[derive(Debug, Clone, Copy, PartialEq, Eq, Structural)]
pub enum LogLevel {
    Info,
    Warn,
    Error,
    Plain,
}

pub open spec fn level_spec(line: Seq<char>) -> LogLevel {
    if has_substring(line, "[INFO]"@) {
        LogLevel::Info
    } else if has_substring(line, "[WARN]"@) {
        LogLevel::Warn
    } else if has_substring(line, "[ERROR]"@) {
        LogLevel::Error
    } else {
        LogLevel::Plain
    }
}

/// The highlight of a log line, by the first level tag it carries.
pub fn log_level(line: &str) -> (r: LogLevel)
    ensures
        r == level_spec(line@),
{
    if text_contains(line, "[INFO]") {
        LogLevel::Info
    } else if text_contains(line, "[WARN]") {
        LogLevel::Warn
    } else if text_contains(line, "[ERROR]") {
        LogLevel::Error
    } else {
        LogLevel::Plain
    }
}

/// The words of a text, split at Unicode whitespace, as `str::split_whitespace` gives them.
pub uninterp spec fn words_of(s: Seq<char>) -> Seq<Seq<char>>;

/// Relies on `str::split_whitespace` for the words of a text, in order.
#[verifier::external_body]
fn split_words(s: &str) -> (r: Vec<String>)
    ensures
        r@.map_values(|w: String| w@) == words_of(s@),
{
    s.split_whitespace().map(String::from).collect()
}

/// A text without its trailing `%` signs.
pub open spec fn trim_percent(s: Seq<char>) -> Seq<char>
    decreases s.len(),
{
    if s.len() > 0 && s.last() == '%' {
        trim_percent(s.drop_last())
    } else {
        s
    }
}

/// Removes the trailing `%` signs of a text.
pub fn strip_percent(s: &str) -> (r: String)
    ensures
        r@ == trim_percent(s@),
{
    let mut k: usize = s.unicode_len();
    proof {
        assert(s@.subrange(0, k as int) =~= s@);
    }
    while k > 0 && s.get_char(k - 1) == '%'
        invariant
            k <= s@.len(),
            trim_percent(s@) == trim_percent(s@.subrange(0, k as int)),
        decreases k,
    {
        proof {
            assert(s@.subrange(0, k as int).drop_last() =~= s@.subrange(0, k as int - 1));
        }
        k = k - 1;
    }
    proof {
        assert(trim_percent(s@.subrange(0, k as int)) == s@.subrange(0, k as int));
    }
    String::from_str(s.substring_char(0, k))
}

/// The overall percentage shown under the status block: the fourth word of the
/// server's message without trailing `%`, or `0` when there is no such word.
pub open spec fn overall_spec(message: Seq<char>) -> Seq<char> {
    if words_of(message).len() > 3 {
        trim_percent(words_of(message)[3])
    } else {
        "0"@
    }
}

pub fn overall_progress_text(message: &str) -> (r: String)
    ensures
        r@ == overall_spec(message@),
{
    let words = split_words(message);
    if words.len() > 3 {
        proof {
            assert(words@.map_values(|w: String| w@)[3] == words@[3]@);
        }
        strip_percent(words[3].as_str())
    } else {
        proof {
            reveal_strlit("0");
        }
        let zero = String::from_str("0");
        proof {
            assert(trim_percent("0"@) == "0"@);
        }
        zero
    }
}

/// One row of the SSH host table; the password is never shown.
#[derive(Debug, Clone)]
pub struct SshHostRow {
    pub name: String,
    pub hostname: String,
    pub username: String,
    pub password: String,
    pub port: u16,
    pub identity_file: String,
    pub is_bastion: String,
}

pub fn ssh_host_row(host: &SshHost) -> (r: SshHostRow)
    ensures
        r.name@ == host.name@,
        r.hostname@ == host.hostname@,
        r.username@ == host.username@,
        r.password@ == "***"@,
        r.port == host.port,
        r.identity_file@ == or_dash(host.identity_file),
        r.is_bastion@ == (if host.is_bastion { "Yes"@ } else { "No"@ }),
{
    SshHostRow {
        name: host.name.clone(),
        hostname: host.hostname.clone(),
        username: host.username.clone(),
        password: String::from_str("***"),
        port: host.port,
        identity_file: dash_or(&host.identity_file),
        is_bastion: if host.is_bastion { String::from_str("Yes") } else { String::from_str("No") },
    }
}

/// The first host whose current step mentions `word`.
pub open spec fn first_step_mentioning(hosts: Seq<HostDeploymentStatus>, word: Seq<char>, i: int) -> bool {
    0 <= i < hosts.len() && has_substring(hosts[i].current_step@, word)
        && forall|m: int| 0 <= m < i ==> !has_substring(#[trigger] hosts[m].current_step@, word)
}

fn find_step_mentioning(hosts: &Vec<HostDeploymentStatus>, word: &str) -> (r: Option<usize>)
    ensures
        r matches Some(i) ==> first_step_mentioning(hosts@, word@, i as int),
        r is None ==> forall|m: int| 0 <= m < hosts@.len() ==> !has_substring(#[trigger] hosts@[m].current_step@, word@),
{
    let mut i: usize = 0;
    while i < hosts.len()
        invariant
            i <= hosts@.len(),
            forall|m: int| 0 <= m < i ==> !has_substring(#[trigger] hosts@[m].current_step@, word@),
        decreases hosts@.len() - i,
    {
        if text_contains(hosts[i].current_step.as_str(), word) {
            return Some(i);
        }
        i = i + 1;
    }
    None
}

/// The host whose current step is shown while a phase is still running: the
/// first host for networking, the first host busy with monitoring or with
/// backups for those phases, and none for the others.
pub fn progress_note_host(phase: DeploymentPhase, hosts: &Vec<HostDeploymentStatus>) -> (r: Option<usize>)
    ensures
        phase == DeploymentPhase::Network ==> (hosts@.len() > 0 <==> r == Some(0usize)) && (hosts@.len() == 0 ==> r is None),
        phase == DeploymentPhase::Monitoring ==> (r matches Some(i) ==> first_step_mentioning(hosts@, "monitoring"@, i as int))
            && (r is None ==> forall|m: int| 0 <= m < hosts@.len() ==> !has_substring(#[trigger] hosts@[m].current_step@, "monitoring"@)),
        phase == DeploymentPhase::Backups ==> (r matches Some(i) ==> first_step_mentioning(hosts@, "backup"@, i as int))
            && (r is None ==> forall|m: int| 0 <= m < hosts@.len() ==> !has_substring(#[trigger] hosts@[m].current_step@, "backup"@)),
        phase != DeploymentPhase::Network && phase != DeploymentPhase::Monitoring && phase != DeploymentPhase::Backups ==> r is None,
{
    match phase {
        DeploymentPhase::Network => if hosts.len() > 0 { Some(0) } else { None },
        DeploymentPhase::Monitoring => find_step_mentioning(hosts, "monitoring"),
        DeploymentPhase::Backups => find_step_mentioning(hosts, "backup"),
        _ => None,
    }
}

/// What a service watch shows for one snapshot of a host's services.
#[derive(Debug, Clone, Copy, PartialEq, Eq, Structural)]
pub enum RestartNote {
    NotFound,
    Running,
    Restarting,
    Other(usize),
}

pub open spec fn restart_note_spec(services: Seq<ServiceStatus>, name: Seq<char>) -> RestartNote {
    match first_service_index(services, name) {
        None => RestartNote::NotFound,
        Some(j) => if services[j].status@ == "Running"@ {
            RestartNote::Running
        } else if services[j].status@ == "Restarting"@ {
            RestartNote::Restarting
        } else {
            RestartNote::Other(j as usize)
        },
    }
}

/// The note for the watched service: missing, running, restarting, or another
/// status, given by the service's position.
pub fn restart_note(services: &Vec<ServiceStatus>, name: &str) -> (r: RestartNote)
    ensures
        r == restart_note_spec(services@, name@),
{
    match find_service(services, name) {
        None => RestartNote::NotFound,
        Some(j) => if text_eq(services[j].status.as_str(), "Running") {
            RestartNote::Running
        } else if text_eq(services[j].status.as_str(), "Restarting") {
            RestartNote::Restarting
        } else {
            RestartNote::Other(j)
        },
    }
}

/// The name of a lowercased text, as `str::to_lowercase` gives it.
pub uninterp spec fn lowercase_of(s: Seq<char>) -> Seq<char>;

/// Relies on `str::to_lowercase`; the result depends on the text alone.
#[verifier::external_body]
fn lowercase(s: &str) -> (r: String)
    ensures
        r@ == lowercase_of(s@),
{
    s.to_lowercase()
}

/// A text with each space replaced by `-`.
pub open spec fn dash_spaces(s: Seq<char>) -> Seq<char> {
    s.map_values(|c: char| if c == ' ' { '-' } else { c })
}

/// Replaces each space of a text by `-`.
pub fn replace_spaces(s: &str) -> (r: String)
    ensures
        r@ == dash_spaces(s@),
{
    let n = s.unicode_len();
    let mut out = String::new();
    let mut start: usize = 0;
    let mut i: usize = 0;
    while i < n
        invariant
            n == s@.len(),
            start <= i <= n,
            out@ + s@.subrange(start as int, i as int) == dash_spaces(s@.subrange(0, i as int)),
            forall|k: int| start <= k < i ==> s@[k] != ' ',
        decreases n - i,
    {
        let ghost before = dash_spaces(s@.subrange(0, i as int));
        proof {
            assert(dash_spaces(s@.subrange(0, i as int + 1)) =~= before.push(if s@[i as int] == ' ' { '-' } else { s@[i as int] }));
        }
        if s.get_char(i) == ' ' {
            let ghost o = out@;
            out.append(s.substring_char(start, i));
            out.append("-");
            proof {
                reveal_strlit("-");
                assert(out@ =~= o + s@.subrange(start as int, i as int) + seq!['-']);
                assert(s@.subrange(i as int + 1, i as int + 1) =~= Seq::<char>::empty());
                assert(out@ + s@.subrange(i as int + 1, i as int + 1) =~= dash_spaces(s@.subrange(0, i as int + 1)));
            }
            start = i + 1;
        } else {
            proof {
                assert(s@.subrange(start as int, i as int + 1) =~= s@.subrange(start as int, i as int).push(s@[i as int]));
                assert(out@ + s@.subrange(start as int, i as int + 1) =~= dash_spaces(s@.subrange(0, i as int + 1)));
            }
        }
        i = i + 1;
    }
    out.append(s.substring_char(start, n));
    proof {
        assert(s@.subrange(0, n as int) =~= s@);
    }
    out
}

/// The cloud name offered by default: the company name lowercased, its
/// spaces made dashes, followed by `-cloud`.
pub fn default_cloud_name(company: &str) -> (r: String)
    ensures
        r@ == dash_spaces(lowercase_of(company@)) + "-cloud"@,
{
    let lower = lowercase(company);
    replace_spaces(lower.as_str()).concat("-cloud")
}

} // verus!
