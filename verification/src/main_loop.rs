//! The main loop as a state machine: between stop checks it either opens a
//! campaign (campaign mode) or reads the contract's campaign count, looks
//! at the campaign the watcher picks, makes room when as many workers run
//! as allowed, screens the campaign, records a fresh campaign's id before
//! its worker starts, starts the worker, and reaps the workers that ended.
//! The caller performs each action (a chain read, a thread join, a file
//! write, a spawn, a pause) and hands back what came of it.
use vstd::prelude::*;
use crate::config::CampaignInfo;
use crate::uint::U256;
use crate::watcher::{at_capacity, poll_defined, poll_next, resume_count, seq_max, Poll, Watcher};

verus! {

/// What the loop waits for.
#[derive(Debug, Clone, Copy)]
pub enum LoopPhase {
    /// Between iterations: waiting for `Tick`.
    Idle,
    WantCount,
    /// The record of this campaign id is being fetched.
    WantInfo(u128),
    /// A worker is being joined to make room.
    WantJoined,
    /// The record of the examined campaign is being screened.
    WantChecked(u128, CampaignInfo),
    /// The id of a fresh campaign is being recorded.
    WantStored(u128, CampaignInfo),
    WantSpawned,
    WantReaped,
    /// The loop is over.
    Stopped,
}

/// Why the loop ends with an error.
#[derive(Debug, Clone, Copy, PartialEq, Eq, Structural)]
pub enum LoopError {
    /// The campaign count could not be read.
    GetNumCampaigns,
    /// The number of workers does not fit the configured limit's type.
    TooManyWorkers,
}

/// What came of the last action.
#[derive(Debug, Clone, Copy)]
pub enum LoopEvent {
    /// A new iteration; `true` when the service is asked to stop.
    Tick(bool),
    /// The campaign count, if it could be read.
    Count(Option<U256>),
    /// The record of the campaign asked for.
    Info(CampaignInfo),
    /// One worker was joined.
    Joined,
    /// Whether the campaign is worth joining.
    Checked(bool),
    /// The fresh campaign's id was recorded.
    Stored,
    /// The worker was started.
    Spawned,
    /// This many ended workers were joined.
    Reaped(usize),
}

/// What the caller is to do next.
#[derive(Debug, Clone, Copy)]
pub enum LoopAction {
    /// Open a campaign, pause a second, then report `Tick`.
    OpenCampaign,
    /// Read the contract's campaign count; report `Count`.
    ReadCount,
    /// Pause this many milliseconds, then report `Tick`.
    Pause(u64),
    /// Fetch the record of this campaign; report `Info`.
    FetchInfo(u128),
    /// Join the most recently started worker; report `Joined`.
    JoinOne,
    /// Screen this campaign; report `Checked`.
    Check(CampaignInfo),
    /// Record this fresh campaign id; report `Stored`.
    Store(u128),
    /// Start a worker for campaign `id`: with `info` when `fresh`, else
    /// resuming its progress file; report `Spawned`.
    Spawn { id: u128, fresh: bool, info: CampaignInfo },
    /// Join the workers that have ended; report `Reaped`.
    ReapFinished,
    /// Wait for every worker and end the loop.
    JoinAll,
    /// End the loop with an error.
    Fail(LoopError),
    /// The event did not fit the loop's state; nothing changed.
    Ignored,
}

/// The main loop: the watcher, the number of workers started and not yet
/// joined, what the loop waits for, whether it only opens campaigns, and
/// the most workers allowed at once.
pub struct MainLoop {
    pub watcher: Watcher,
    pub running: usize,
    pub phase: LoopPhase,
    pub campaign_mode: bool,
    pub max_campaigns: i32,
}

/// The mathematical value of a `MainLoop`.
pub struct LoopView {
    pub seen: nat,
    pub pending: Seq<u128>,
    pub running: nat,
    pub phase: LoopPhase,
    pub campaign_mode: bool,
    pub max_campaigns: i32,
}

impl View for MainLoop {
    type V = LoopView;

    open spec fn view(&self) -> LoopView {
        LoopView {
            seen: self.watcher.campaign_num@,
            pending: self.watcher.pending@,
            running: self.running as nat,
            phase: self.phase,
            campaign_mode: self.campaign_mode,
            max_campaigns: self.max_campaigns,
        }
    }
}

/// Whether the workers running are as many as allowed (`None` when their
/// number does not fit the limit's type).
pub open spec fn capacity_of(max_campaigns: i32, running: nat) -> Option<bool> {
    if running > i32::MAX {
        None
    } else {
        Some(max_campaigns <= running)
    }
}

/// The id claimed for a campaign accepted while `fresh` was examined: the
/// last leftover if any (and the leftovers without it), else `fresh`.
pub open spec fn claim_next(pending: Seq<u128>, fresh: u128) -> ((u128, bool), Seq<u128>) {
    if pending.len() == 0 {
        ((fresh, true), pending)
    } else {
        ((pending.last(), false), pending.drop_last())
    }
}

/// The loop in phase `p`.
pub open spec fn in_phase(m: LoopView, p: LoopPhase) -> LoopView {
    LoopView { phase: p, ..m }
}

/// One transition of the main loop.
pub open spec fn loop_next(m: LoopView, e: LoopEvent) -> (LoopView, LoopAction) {
    match m.phase {
        LoopPhase::Idle => match e {
            LoopEvent::Tick(true) => (in_phase(m, LoopPhase::Stopped), LoopAction::JoinAll),
            LoopEvent::Tick(false) => if m.campaign_mode {
                (m, LoopAction::OpenCampaign)
            } else {
                (in_phase(m, LoopPhase::WantCount), LoopAction::ReadCount)
            },
            _ => (m, LoopAction::Ignored),
        },
        LoopPhase::WantCount => match e {
            LoopEvent::Count(None) => (
                in_phase(m, LoopPhase::Stopped),
                LoopAction::Fail(LoopError::GetNumCampaigns),
            ),
            LoopEvent::Count(Some(n)) => {
                let (p, seen) = poll_next(m.seen, m.pending.len() == 0, n@);
                match p {
                    Poll::Wait => (
                        LoopView { seen, phase: LoopPhase::Idle, ..m },
                        LoopAction::Pause(5000),
                    ),
                    Poll::Examine(id) => (
                        LoopView { seen, phase: LoopPhase::WantInfo(id), ..m },
                        LoopAction::FetchInfo(id),
                    ),
                }
            },
            _ => (m, LoopAction::Ignored),
        },
        LoopPhase::WantInfo(id) => match e {
            LoopEvent::Info(info) => match capacity_of(m.max_campaigns, m.running) {
                None => (
                    in_phase(m, LoopPhase::Stopped),
                    LoopAction::Fail(LoopError::TooManyWorkers),
                ),
                Some(true) => (in_phase(m, LoopPhase::WantJoined), LoopAction::JoinOne),
                Some(false) => (
                    in_phase(m, LoopPhase::WantChecked(id, info)),
                    LoopAction::Check(info),
                ),
            },
            _ => (m, LoopAction::Ignored),
        },
        LoopPhase::WantJoined => match e {
            LoopEvent::Joined => (
                LoopView { running: (m.running - 1) as nat, phase: LoopPhase::Idle, ..m },
                LoopAction::Pause(0),
            ),
            _ => (m, LoopAction::Ignored),
        },
        LoopPhase::WantChecked(id, info) => match e {
            LoopEvent::Checked(false) => (in_phase(m, LoopPhase::Idle), LoopAction::Pause(0)),
            LoopEvent::Checked(true) => {
                let ((cid, fresh), pending) = claim_next(m.pending, id);
                if fresh {
                    (
                        LoopView { pending, phase: LoopPhase::WantStored(cid, info), ..m },
                        LoopAction::Store(cid),
                    )
                } else {
                    (
                        LoopView { pending, phase: LoopPhase::WantSpawned, ..m },
                        LoopAction::Spawn { id: cid, fresh: false, info },
                    )
                }
            },
            _ => (m, LoopAction::Ignored),
        },
        LoopPhase::WantStored(id, info) => match e {
            LoopEvent::Stored => (
                in_phase(m, LoopPhase::WantSpawned),
                LoopAction::Spawn { id, fresh: true, info },
            ),
            _ => (m, LoopAction::Ignored),
        },
        LoopPhase::WantSpawned => match e {
            LoopEvent::Spawned => (
                LoopView { running: m.running + 1, phase: LoopPhase::WantReaped, ..m },
                LoopAction::ReapFinished,
            ),
            _ => (m, LoopAction::Ignored),
        },
        LoopPhase::WantReaped => match e {
            LoopEvent::Reaped(k) => (
                LoopView { running: (m.running - k) as nat, phase: LoopPhase::Idle, ..m },
                LoopAction::Pause(0),
            ),
            _ => (m, LoopAction::Ignored),
        },
        LoopPhase::Stopped => (m, LoopAction::Ignored),
    }
}

/// Whether the transition on `e` is defined: the watcher can decide on the
/// count read, a worker to join exists, the count of workers stays within
/// its type, and no more workers are joined or reaped than run.
pub open spec fn loop_step_defined(m: LoopView, e: LoopEvent) -> bool {
    match m.phase {
        LoopPhase::WantCount => match e {
            LoopEvent::Count(Some(n)) => poll_defined(m.seen, m.pending.len() == 0, n@),
            _ => true,
        },
        LoopPhase::WantInfo(_) => match e {
            LoopEvent::Info(_) => capacity_of(m.max_campaigns, m.running) == Some(true)
                ==> m.running > 0,
            _ => true,
        },
        LoopPhase::WantJoined => match e {
            LoopEvent::Joined => m.running > 0,
            _ => true,
        },
        LoopPhase::WantSpawned => match e {
            LoopEvent::Spawned => m.running < usize::MAX,
            _ => true,
        },
        LoopPhase::WantReaped => match e {
            LoopEvent::Reaped(k) => k <= m.running,
            _ => true,
        },
        _ => true,
    }
}

impl MainLoop {
    /// A loop about to start, resuming the campaign ids left over from an
    /// earlier run.
    pub fn new(ids: Vec<u128>, campaign_mode: bool, max_campaigns: i32) -> (r: MainLoop)
        requires
            ids@.len() > 0 ==> seq_max(ids@) < u128::MAX,
        ensures
            r@.seen == resume_count(ids@),
            r@.pending == ids@,
            r@.running == 0,
            r@.phase is Idle,
            r@.campaign_mode == campaign_mode,
            r@.max_campaigns == max_campaigns,
    {
        MainLoop {
            watcher: Watcher::new(ids),
            running: 0,
            phase: LoopPhase::Idle,
            campaign_mode,
            max_campaigns,
        }
    }

    /// Whether `step` is defined on `e`.
    pub fn can_step(&self, e: &LoopEvent) -> (r: bool)
        ensures
            r == loop_step_defined(self@, *e),
    {
        match self.phase {
            LoopPhase::WantCount => match e {
                LoopEvent::Count(Some(n)) => self.watcher.can_poll(n),
                _ => true,
            },
            LoopPhase::WantInfo(_) => match e {
                LoopEvent::Info(_) => match at_capacity(self.max_campaigns, self.running) {
                    Some(true) => self.running > 0,
                    _ => true,
                },
                _ => true,
            },
            LoopPhase::WantJoined => match e {
                LoopEvent::Joined => self.running > 0,
                _ => true,
            },
            LoopPhase::WantSpawned => match e {
                LoopEvent::Spawned => self.running < usize::MAX,
                _ => true,
            },
            LoopPhase::WantReaped => match e {
                LoopEvent::Reaped(k) => *k <= self.running,
                _ => true,
            },
            _ => true,
        }
    }

    /// Takes one event and gives the next action.
    pub fn step(&mut self, e: LoopEvent) -> (a: LoopAction)
        requires
            loop_step_defined(old(self)@, e),
        ensures
            (final(self)@, a) == loop_next(old(self)@, e),
    {
        match self.phase {
            LoopPhase::Idle => match e {
                LoopEvent::Tick(true) => {
                    self.phase = LoopPhase::Stopped;
                    LoopAction::JoinAll
                },
                LoopEvent::Tick(false) => if self.campaign_mode {
                    LoopAction::OpenCampaign
                } else {
                    self.phase = LoopPhase::WantCount;
                    LoopAction::ReadCount
                },
                _ => LoopAction::Ignored,
            },
            LoopPhase::WantCount => match e {
                LoopEvent::Count(None) => {
                    self.phase = LoopPhase::Stopped;
                    LoopAction::Fail(LoopError::GetNumCampaigns)
                },
                LoopEvent::Count(Some(n)) => match self.watcher.on_count(&n) {
                    Poll::Wait => {
                        self.phase = LoopPhase::Idle;
                        LoopAction::Pause(5000)
                    },
                    Poll::Examine(id) => {
                        self.phase = LoopPhase::WantInfo(id);
                        LoopAction::FetchInfo(id)
                    },
                },
                _ => LoopAction::Ignored,
            },
            LoopPhase::WantInfo(id) => match e {
                LoopEvent::Info(info) => match at_capacity(self.max_campaigns, self.running) {
                    None => {
                        self.phase = LoopPhase::Stopped;
                        LoopAction::Fail(LoopError::TooManyWorkers)
                    },
                    Some(true) => {
                        self.phase = LoopPhase::WantJoined;
                        LoopAction::JoinOne
                    },
                    Some(false) => {
                        self.phase = LoopPhase::WantChecked(id, info);
                        LoopAction::Check(info)
                    },
                },
                _ => LoopAction::Ignored,
            },
            LoopPhase::WantJoined => match e {
                LoopEvent::Joined => {
                    self.running = self.running - 1;
                    self.phase = LoopPhase::Idle;
                    LoopAction::Pause(0)
                },
                _ => LoopAction::Ignored,
            },
            LoopPhase::WantChecked(id, info) => match e {
                LoopEvent::Checked(false) => {
                    self.phase = LoopPhase::Idle;
                    LoopAction::Pause(0)
                },
                LoopEvent::Checked(true) => {
                    let (cid, fresh) = self.watcher.claim(id);
                    if fresh {
                        self.phase = LoopPhase::WantStored(cid, info);
                        LoopAction::Store(cid)
                    } else {
                        self.phase = LoopPhase::WantSpawned;
                        LoopAction::Spawn { id: cid, fresh: false, info }
                    }
                },
                _ => LoopAction::Ignored,
            },
            LoopPhase::WantStored(id, info) => match e {
                LoopEvent::Stored => {
                    self.phase = LoopPhase::WantSpawned;
                    LoopAction::Spawn { id, fresh: true, info }
                },
                _ => LoopAction::Ignored,
            },
            LoopPhase::WantSpawned => match e {
                LoopEvent::Spawned => {
                    self.running = self.running + 1;
                    self.phase = LoopPhase::WantReaped;
                    LoopAction::ReapFinished
                },
                _ => LoopAction::Ignored,
            },
            LoopPhase::WantReaped => match e {
                LoopEvent::Reaped(k) => {
                    self.running = self.running - k;
                    self.phase = LoopPhase::Idle;
                    LoopAction::Pause(0)
                },
                _ => LoopAction::Ignored,
            },
            LoopPhase::Stopped => LoopAction::Ignored,
        }
    }
}

// ---------------------------------------------------------------------------
// Laws of the main loop.
// ---------------------------------------------------------------------------

/// The states the loop can be in: never more workers than allowed (none at
/// all when the limit is not positive), and from the screening of a
/// campaign until its worker is started, fewer than allowed.
pub open spec fn loop_inv(m: LoopView) -> bool {
    &&& m.running == 0 || m.running <= m.max_campaigns
    &&& (m.phase is WantChecked || m.phase is WantStored || m.phase is WantSpawned) ==> m.running
        < m.max_campaigns
    &&& (m.phase is WantReaped || m.phase is WantJoined) ==> m.running >= 1
}

/// A new loop is in a reachable state.
pub proof fn lemma_loop_new_inv(m: LoopView)
    requires
        m.running == 0,
        m.phase is Idle,
    ensures
        loop_inv(m),
{
}

/// Every transition keeps the loop in a reachable state: the number of
/// workers never exceeds the limit.
pub proof fn lemma_loop_next_inv(m: LoopView, e: LoopEvent)
    requires
        loop_inv(m),
        loop_step_defined(m, e),
    ensures
        loop_inv(loop_next(m, e).0),
{
}

/// A worker is started only while fewer workers run than allowed; when as
/// many run as allowed, one is joined first and the campaign is left for
/// the next iteration.
pub proof fn lemma_loop_capacity(m: LoopView, e: LoopEvent)
    requires
        loop_inv(m),
    ensures
        loop_next(m, e).1 is Spawn ==> m.running < m.max_campaigns,
        loop_next(m, e).1 is Check ==> m.running < m.max_campaigns,
        (m.phase is WantInfo && e is Info && capacity_of(m.max_campaigns, m.running) == Some(true))
            ==> loop_next(m, e).1 is JoinOne,
{
}

/// The id of a fresh campaign is recorded before its worker starts: a fresh
/// worker is started only right after its id was stored, and the id stored
/// is the campaign examined, when no leftover remains.
pub proof fn lemma_loop_store_before_spawn(m: LoopView, e: LoopEvent)
    ensures
        loop_next(m, e).1 matches LoopAction::Spawn { id, fresh: true, .. } ==> (m.phase matches LoopPhase::WantStored(sid, _) && sid == id && e is Stored),
        loop_next(m, e).1 matches LoopAction::Store(id) ==> (m.phase matches LoopPhase::WantChecked(eid, _) && eid == id && m.pending.len() == 0),
{
}

/// Leftover campaigns are resumed before fresh ones, last stored first,
/// each once: a worker that resumes is started for the last leftover id,
/// which leaves the list.
pub proof fn lemma_loop_leftovers_first(m: LoopView, e: LoopEvent)
    ensures
        loop_next(m, e).1 matches LoopAction::Spawn { id, fresh: false, .. } ==> m.pending.len()
            > 0 && id == m.pending.last() && loop_next(m, e).0.pending == m.pending.drop_last(),
        loop_next(m, e).1 is Store ==> m.pending.len() == 0,
{
}

/// Asked to stop between iterations, the loop waits for every worker and
/// ends; once ended, it starts nothing more.
pub proof fn lemma_loop_stop(m: LoopView, e: LoopEvent)
    ensures
        m.phase is Idle && e == LoopEvent::Tick(true) ==> loop_next(m, e).0.phase is Stopped
            && loop_next(m, e).1 is JoinAll,
        m.phase is Stopped ==> loop_next(m, e).1 is Ignored && loop_next(m, e).0 == m,
{
}

/// The loop after the events `es`.
pub open spec fn loop_run(m: LoopView, es: Seq<LoopEvent>) -> LoopView
    decreases es.len(),
{
    if es.len() == 0 {
        m
    } else {
        loop_run(loop_next(m, es[0]).0, es.drop_first())
    }
}

/// Whether every transition of the run on `es` is defined.
pub open spec fn loop_run_defined(m: LoopView, es: Seq<LoopEvent>) -> bool
    decreases es.len(),
{
    es.len() == 0 || (loop_step_defined(m, es[0]) && loop_run_defined(
        loop_next(m, es[0]).0,
        es.drop_first(),
    ))
}

/// Over any run of the loop from a reachable state, the loop stays
/// reachable and keeps its limit.
proof fn lemma_loop_run_inv(m: LoopView, es: Seq<LoopEvent>)
    requires
        loop_inv(m),
        loop_run_defined(m, es),
    ensures
        loop_inv(loop_run(m, es)),
        loop_run(m, es).max_campaigns == m.max_campaigns,
    decreases es.len(),
{
    if es.len() > 0 {
        lemma_loop_next_inv(m, es[0]);
        lemma_loop_run_inv(loop_next(m, es[0]).0, es.drop_first());
    }
}

/// Worker capacity over whole runs: from a new loop (no worker running),
/// after any run of events, never more workers run than the limit allows
/// (none at all when the limit is not positive), and the next action starts
/// a worker only while fewer than the limit run.
pub proof fn lemma_loop_capacity_run(m: LoopView, es: Seq<LoopEvent>, e: LoopEvent)
    requires
        m.running == 0,
        m.phase is Idle,
        loop_run_defined(m, es),
    ensures
        m.max_campaigns >= 1 ==> loop_run(m, es).running <= m.max_campaigns,
        m.max_campaigns < 1 ==> loop_run(m, es).running == 0,
        loop_next(loop_run(m, es), e).1 is Spawn ==> loop_run(m, es).running < m.max_campaigns,
{
    lemma_loop_new_inv(m);
    lemma_loop_run_inv(m, es);
    lemma_loop_capacity(loop_run(m, es), e);
}

/// Workers are counted exactly: starting one adds one to the workers
/// running, joining one to make room takes one off, and reaping `k` ended
/// workers takes `k` off; nothing else changes the count.
pub proof fn lemma_loop_worker_count(m: LoopView, e: LoopEvent)
    requires
        loop_step_defined(m, e),
        loop_inv(m),
    ensures
        (m.phase is WantSpawned && e is Spawned) ==> loop_next(m, e).0.running == m.running + 1,
        (m.phase is WantJoined && e is Joined) ==> loop_next(m, e).0.running + 1 == m.running,
        !(m.phase is WantSpawned && e is Spawned) && !(m.phase is WantJoined && e is Joined)
            && !(m.phase is WantReaped && e is Reaped) ==> loop_next(m, e).0.running == m.running,
{
}

/// Reaping `k` ended workers leaves exactly `k` fewer running, and the loop
/// goes on to its next iteration.
pub proof fn lemma_loop_reap(m: LoopView, k: usize)
    requires
        m.phase is WantReaped,
        k <= m.running,
    ensures
        loop_next(m, LoopEvent::Reaped(k)).0.running + k == m.running,
        loop_next(m, LoopEvent::Reaped(k)).0.phase is Idle,
        loop_next(m, LoopEvent::Reaped(k)).1 is Pause,
{
}

} // verus!
