use vstd::prelude::*;
use crate::model::{HostDeploymentStatus, ServiceStatus};
use crate::phases::{
    backups_converged, backups_ready, is_completed, is_completed_status, monitoring_converged,
    monitoring_ready, network_complete, network_converged, service_is_running, service_running,
    DeploymentPhase,
};

verus! {

/// Progress fields that the backup status endpoint may carry.
#[derive(Debug, Clone)]
pub struct BackupProgress {
    pub progress: Option<u64>,
    pub current_step: Option<String>,
    pub timestamp: Option<String>,
    pub size: Option<String>,
}

/// A response's `data` payload, decoded in the shape that the polling phase
/// expects; `Missing` when it is absent or has another shape.
#[derive(Debug, Clone)]
pub enum StatusData {
    Missing,
    Hosts(Vec<HostDeploymentStatus>),
    Services(Vec<ServiceStatus>),
    Backup(BackupProgress),
}

/// A response envelope from a status endpoint.
#[derive(Debug, Clone)]
pub struct StatusResponse {
    pub status: String,
    pub message: String,
    pub data: StatusData,
}

/// The outcome of one status request.
#[derive(Debug, Clone)]
pub enum PollEvent {
    RequestFailed,
    Response(StatusResponse),
}

#[derive(Debug, Clone, Copy, PartialEq, Eq, Structural)]
pub enum PollState {
    Polling,
    Converged,
    TimedOut,
}

/// What the caller does after handing a poll outcome to the poller.
#[derive(Debug, Clone, Copy, PartialEq, Eq, Structural)]
pub enum PollAction {
    PollAgain { delay_secs: u64 },
    Converged,
    TimedOut,
}

/// The abstract state of a poller.
pub struct PollerModel {
    pub phase: DeploymentPhase,
    pub service: Seq<char>,
    pub attempts: nat,
    pub state: PollState,
}

/// The largest number of status requests a phase makes; `None` for no limit.
pub open spec fn attempt_budget(phase: DeploymentPhase) -> Option<nat> {
    match phase {
        DeploymentPhase::Init => None,
        DeploymentPhase::Network => Some(120),
        DeploymentPhase::Monitoring => Some(120),
        DeploymentPhase::Backups => Some(120),
        DeploymentPhase::ServiceRestart => Some(30),
        DeploymentPhase::BackupTrigger => Some(60),
    }
}

/// The phase's completion predicate holds of this poll outcome.
pub open spec fn event_converges(phase: DeploymentPhase, service: Seq<char>, e: PollEvent) -> bool {
    match e {
        PollEvent::RequestFailed => false,
        PollEvent::Response(r) => match phase {
            DeploymentPhase::Init => is_completed_status(r.status@),
            DeploymentPhase::BackupTrigger => is_completed_status(r.status@),
            DeploymentPhase::Network => r.data matches StatusData::Hosts(h) && network_converged(h@),
            DeploymentPhase::Monitoring => r.data matches StatusData::Hosts(h) && monitoring_converged(h@),
            DeploymentPhase::Backups => r.data matches StatusData::Hosts(h) && backups_converged(h@),
            DeploymentPhase::ServiceRestart => r.data matches StatusData::Services(s) && service_running(s@, service),
        },
    }
}

pub open spec fn initial_model(phase: DeploymentPhase, service: Seq<char>) -> PollerModel {
    PollerModel { phase, service, attempts: 0, state: PollState::Polling }
}

/// One poll outcome applied to the poller: it counts as an attempt, ends the
/// phase when the predicate holds, and times out once the budget is spent.
/// A poller that has stopped ignores further outcomes.
pub open spec fn poll_step(m: PollerModel, e: PollEvent) -> PollerModel {
    if m.state != PollState::Polling {
        m
    } else {
        let n: nat = if m.attempts < u64::MAX { m.attempts + 1 } else { m.attempts };
        if event_converges(m.phase, m.service, e) {
            PollerModel { attempts: n, state: PollState::Converged, ..m }
        } else if attempt_budget(m.phase) matches Some(b) && n >= b {
            PollerModel { attempts: n, state: PollState::TimedOut, ..m }
        } else {
            PollerModel { attempts: n, ..m }
        }
    }
}

/// The poller after a whole feed of outcomes, in order.
pub open spec fn run_feed(m: PollerModel, feed: Seq<PollEvent>) -> PollerModel
    decreases feed.len(),
{
    if feed.len() == 0 {
        m
    } else {
        poll_step(run_feed(m, feed.drop_last()), feed.last())
    }
}

/// The action that goes with a poller state reached after outcome `e`.
pub open spec fn action_for(m: PollerModel, e: PollEvent) -> PollAction {
    match m.state {
        PollState::Converged => PollAction::Converged,
        PollState::TimedOut => PollAction::TimedOut,
        PollState::Polling => PollAction::PollAgain {
            delay_secs: if e is RequestFailed && m.phase == DeploymentPhase::Init { 2 } else { 1 },
        },
    }
}

/// Follows one phase to convergence or timeout, one status response at a time.
pub struct StatusPoller {
    phase: DeploymentPhase,
    service: String,
    attempts: u64,
    state: PollState,
    rendered_lines: u64,
}

impl View for StatusPoller {
    type V = PollerModel;

    closed spec fn view(&self) -> PollerModel {
        PollerModel {
            phase: self.phase,
            service: self.service@,
            attempts: self.attempts as nat,
            state: self.state,
        }
    }
}

pub fn attempt_limit(phase: DeploymentPhase) -> (r: Option<u64>)
    ensures
        r matches Some(b) ==> attempt_budget(phase) == Some(b as nat),
        r is None ==> attempt_budget(phase) is None,
{
    match phase {
        DeploymentPhase::Init => None,
        DeploymentPhase::Network => Some(120),
        DeploymentPhase::Monitoring => Some(120),
        DeploymentPhase::Backups => Some(120),
        DeploymentPhase::ServiceRestart => Some(30),
        DeploymentPhase::BackupTrigger => Some(60),
    }
}

/// Whether the phase's completion predicate holds of this poll outcome.
pub fn converges(phase: DeploymentPhase, service: &str, e: &PollEvent) -> (r: bool)
    ensures
        r == event_converges(phase, service@, *e),
{
    match e {
        PollEvent::RequestFailed => false,
        PollEvent::Response(r) => {
            match phase {
                DeploymentPhase::Init => is_completed(r.status.as_str()),
                DeploymentPhase::BackupTrigger => is_completed(r.status.as_str()),
                DeploymentPhase::Network => match &r.data {
                    StatusData::Hosts(h) => network_complete(h),
                    _ => false,
                },
                DeploymentPhase::Monitoring => match &r.data {
                    StatusData::Hosts(h) => monitoring_ready(h),
                    _ => false,
                },
                DeploymentPhase::Backups => match &r.data {
                    StatusData::Hosts(h) => backups_ready(h),
                    _ => false,
                },
                DeploymentPhase::ServiceRestart => match &r.data {
                    StatusData::Services(s) => service_is_running(s, service),
                    _ => false,
                },
            }
        },
    }
}

impl StatusPoller {
    /// A poller for a platform-wide phase.
    pub fn new(phase: DeploymentPhase) -> (r: StatusPoller)
        ensures
            r@ == initial_model(phase, Seq::empty()),
            r.rendered_lines() == 0,
    {
        StatusPoller {
            phase,
            service: String::new(),
            attempts: 0,
            state: PollState::Polling,
            rendered_lines: 0,
        }
    }

    /// A poller that watches one service of a host come back after a restart.
    pub fn watch_service(service: String) -> (r: StatusPoller)
        ensures
            r@ == initial_model(DeploymentPhase::ServiceRestart, service@),
            r.rendered_lines() == 0,
    {
        StatusPoller {
            phase: DeploymentPhase::ServiceRestart,
            service,
            attempts: 0,
            state: PollState::Polling,
            rendered_lines: 0,
        }
    }

    pub fn phase(&self) -> (r: DeploymentPhase)
        ensures
            r == self@.phase,
    {
        self.phase
    }

    /// The watched service's name; empty for a platform-wide phase.
    pub fn service(&self) -> (r: &str)
        ensures
            r@ == self@.service,
    {
        self.service.as_str()
    }

    pub fn attempts(&self) -> (r: u64)
        ensures
            r == self@.attempts,
    {
        self.attempts
    }

    pub fn state(&self) -> (r: PollState)
        ensures
            r == self@.state,
    {
        self.state
    }

    /// Applies the outcome of one status request and says what to do next.
    pub fn record(&mut self, e: &PollEvent) -> (action: PollAction)
        ensures
            final(self)@ == poll_step(old(self)@, *e),
            old(self)@.state == PollState::Polling ==> action == action_for(final(self)@, *e),
            old(self)@.state == PollState::Converged ==> action == PollAction::Converged,
            old(self)@.state == PollState::TimedOut ==> action == PollAction::TimedOut,
    {
        match self.state {
            PollState::Converged => return PollAction::Converged,
            PollState::TimedOut => return PollAction::TimedOut,
            PollState::Polling => {},
        }
        if self.attempts < u64::MAX {
            self.attempts = self.attempts + 1;
        }
        if converges(self.phase, self.service.as_str(), e) {
            self.state = PollState::Converged;
            return PollAction::Converged;
        }
        match attempt_limit(self.phase) {
            Some(b) => {
                if self.attempts >= b {
                    self.state = PollState::TimedOut;
                    return PollAction::TimedOut;
                }
            },
            None => {},
        }
        let failed = match e {
            PollEvent::RequestFailed => true,
            _ => false,
        };
        if failed && self.phase == DeploymentPhase::Init {
            PollAction::PollAgain { delay_secs: 2 }
        } else {
            PollAction::PollAgain { delay_secs: 1 }
        }
    }

    /// Notes that a status block of `host_count` hosts is about to be printed;
    /// returns the number of lines of the previous block to erase first.
    pub fn begin_render(&mut self, host_count: u64) -> (erase: u64)
        ensures
            erase == old(self).rendered_lines(),
            final(self).rendered_lines() == rendered_block_lines(host_count),
            final(self)@ == old(self)@,
    {
        let erase = self.rendered_lines;
        self.rendered_lines = host_count.saturating_add(2);
        erase
    }

    pub closed spec fn rendered_lines(&self) -> u64 {
        self.rendered_lines
    }
}

/// Lines of one status block: a heading, one line per host and an overall line.
pub open spec fn rendered_block_lines(host_count: u64) -> u64 {
    if host_count + 2 <= u64::MAX { (host_count + 2) as u64 } else { u64::MAX }
}


/// A poller that has stopped stays as it is, whatever comes after.
pub proof fn lemma_stopped_poller_is_stable(m: PollerModel, feed: Seq<PollEvent>)
    requires
        m.state != PollState::Polling,
    ensures
        run_feed(m, feed) == m,
    decreases feed.len(),
{
    if feed.len() > 0 {
        lemma_stopped_poller_is_stable(m, feed.drop_last());
    }
}

/// Feeding two runs of outcomes one after the other is feeding their concatenation.
pub proof fn lemma_run_feed_append(m: PollerModel, a: Seq<PollEvent>, b: Seq<PollEvent>)
    ensures
        run_feed(m, a + b) == run_feed(run_feed(m, a), b),
    decreases b.len(),
{
    if b.len() == 0 {
        assert(a + b =~= a);
    } else {
        assert((a + b).drop_last() =~= a + b.drop_last());
        assert((a + b).last() == b.last());
        lemma_run_feed_append(m, a, b.drop_last());
    }
}

/// Before any outcome meets the predicate and within the budget, the poller
/// keeps polling and has made exactly one attempt per outcome.
proof fn lemma_polls_until_converged(phase: DeploymentPhase, service: Seq<char>, feed: Seq<PollEvent>)
    requires
        forall|i: int| 0 <= i < feed.len() ==> !event_converges(phase, service, #[trigger] feed[i]),
        attempt_budget(phase) matches Some(b) ==> feed.len() < b,
        feed.len() < u64::MAX,
    ensures
        run_feed(initial_model(phase, service), feed) == (PollerModel {
            attempts: feed.len(),
            ..initial_model(phase, service)
        }),
    decreases feed.len(),
{
    if feed.len() > 0 {
        let p = feed.drop_last();
        assert forall|i: int| 0 <= i < p.len() implies !event_converges(phase, service, #[trigger] p[i]) by {
            assert(p[i] == feed[i]);
        }
        lemma_polls_until_converged(phase, service, p);
        assert(!event_converges(phase, service, feed[feed.len() - 1]));
    }
}

/// Convergence: when the first outcome that meets the phase's predicate is the
/// `k`-th one, and `k` is within the phase's budget, the poller converges at
/// exactly attempt `k`, and later outcomes change nothing.
pub proof fn lemma_converges_at_first_match(
    phase: DeploymentPhase,
    service: Seq<char>,
    feed: Seq<PollEvent>,
    k: nat,
)
    requires
        1 <= k <= feed.len(),
        forall|i: int| 0 <= i < k - 1 ==> !event_converges(phase, service, #[trigger] feed[i]),
        event_converges(phase, service, feed[k - 1]),
        attempt_budget(phase) matches Some(b) ==> k <= b,
        k < u64::MAX,
    ensures
        run_feed(initial_model(phase, service), feed) == (PollerModel {
            attempts: k,
            state: PollState::Converged,
            ..initial_model(phase, service)
        }),
{
    let init = initial_model(phase, service);
    let before = feed.take(k - 1);
    assert forall|i: int| 0 <= i < before.len() implies !event_converges(phase, service, #[trigger] before[i]) by {
        assert(before[i] == feed[i]);
    }
    lemma_polls_until_converged(phase, service, before);
    let upto = feed.take(k as int);
    assert(upto.drop_last() =~= before);
    let done = run_feed(init, upto);
    assert(done == PollerModel { attempts: k, state: PollState::Converged, ..init });
    lemma_run_feed_append(init, upto, feed.skip(k as int));
    assert(upto + feed.skip(k as int) =~= feed);
    lemma_stopped_poller_is_stable(done, feed.skip(k as int));
}

/// Timeout: in a phase with budget `b`, a feed of at least `b` outcomes none
/// of which meets the predicate leaves the poller timed out after exactly `b`
/// attempts; it does not poll beyond the budget.
pub proof fn lemma_times_out_at_budget(
    phase: DeploymentPhase,
    service: Seq<char>,
    feed: Seq<PollEvent>,
    b: nat,
)
    requires
        attempt_budget(phase) == Some(b),
        b <= feed.len(),
        forall|i: int| 0 <= i < feed.len() ==> !event_converges(phase, service, #[trigger] feed[i]),
    ensures
        run_feed(initial_model(phase, service), feed) == (PollerModel {
            attempts: b,
            state: PollState::TimedOut,
            ..initial_model(phase, service)
        }),
{
    let init = initial_model(phase, service);
    let before = feed.take(b - 1);
    assert forall|i: int| 0 <= i < before.len() implies !event_converges(phase, service, #[trigger] before[i]) by {
        assert(before[i] == feed[i]);
    }
    lemma_polls_until_converged(phase, service, before);
    let upto = feed.take(b as int);
    assert(upto.drop_last() =~= before);
    assert(!event_converges(phase, service, feed[b - 1]));
    let done = run_feed(init, upto);
    lemma_run_feed_append(init, upto, feed.skip(b as int));
    assert(upto + feed.skip(b as int) =~= feed);
    lemma_stopped_poller_is_stable(done, feed.skip(b as int));
}

/// The poller's attempt count never exceeds its phase's budget, whatever the feed.
pub proof fn lemma_attempts_within_budget(phase: DeploymentPhase, service: Seq<char>, feed: Seq<PollEvent>)
    ensures
        attempt_budget(phase) matches Some(b) ==> run_feed(initial_model(phase, service), feed).attempts <= b,
        attempt_budget(phase) matches Some(b) ==> (run_feed(initial_model(phase, service), feed).state
            == PollState::Polling ==> run_feed(initial_model(phase, service), feed).attempts < b),
        run_feed(initial_model(phase, service), feed).phase == phase,
        run_feed(initial_model(phase, service), feed).service == service,
    decreases feed.len(),
{
    if feed.len() > 0 {
        lemma_attempts_within_budget(phase, service, feed.drop_last());
    }
}

} // verus!
