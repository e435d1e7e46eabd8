//! The work of one campaign participation, as a state machine: commit a
//! hashed secret while commits are open, reveal it while reveals are open,
//! then read the random number and claim the bounty once the target block
//! is reached. The machine decides; the caller performs each action (a
//! contract call, a block-number read, a write of the progress file) and
//! hands back what came of it as the next event.
use vstd::prelude::*;
use crate::config::CampaignInfo;
use crate::text::{chars_of, copy_bytes, string_from_chars};
use crate::types::H256;
use crate::uint::U256;

verus! {

/// Progress of one campaign, as kept in its progress file.
pub struct TaskStatus {
    /// 0: nothing done; 1: secret chosen and hashed; 2: commit sent;
    /// 3: reveal sent; 4: random number read; 5: bounty claimed.
    pub step: u8,
    /// The commitment: the contract's hash of the secret.
    pub hs: Vec<u8>,
    pub randao_num: U256,
    /// The secret, as a decimal numeral.
    pub secret: String,
    pub campaign_id: u128,
    pub campaign_info: CampaignInfo,
    /// Hash of the last transaction sent.
    pub tx_hash: H256,
}

/// The mathematical value of a `TaskStatus`.
pub struct TaskStatusView {
    pub step: u8,
    pub hs: Seq<u8>,
    pub randao_num: U256,
    pub secret: Seq<char>,
    pub campaign_id: u128,
    pub campaign_info: CampaignInfo,
    pub tx_hash: H256,
}

impl View for TaskStatus {
    type V = TaskStatusView;

    open spec fn view(&self) -> TaskStatusView {
        TaskStatusView {
            step: self.step,
            hs: self.hs@,
            randao_num: self.randao_num,
            secret: self.secret@,
            campaign_id: self.campaign_id,
            campaign_info: self.campaign_info,
            tx_hash: self.tx_hash,
        }
    }
}

impl TaskStatus {
    /// The status of a campaign not yet started.
    pub fn new(campaign_id: u128, campaign_info: CampaignInfo) -> (r: TaskStatus)
        ensures
            r.step == 0,
            r.hs@.len() == 0,
            r.randao_num@ == 0,
            r.secret@.len() == 0,
            r.campaign_id == campaign_id,
            r.campaign_info == campaign_info,
            forall|i: int| 0 <= i < 32 ==> r.tx_hash.bytes@[i] == 0,
    {
        TaskStatus {
            step: 0,
            hs: Vec::new(),
            randao_num: U256::zero(),
            secret: String::new(),
            campaign_id,
            campaign_info,
            tx_hash: H256::zero(),
        }
    }

    /// A copy with the same value.
    pub fn duplicate(&self) -> (r: TaskStatus)
        ensures
            r@ == self@,
    {
        TaskStatus {
            step: self.step,
            hs: copy_bytes(&self.hs),
            randao_num: self.randao_num,
            secret: self.secret.clone(),
            campaign_id: self.campaign_id,
            campaign_info: self.campaign_info,
            tx_hash: self.tx_hash,
        }
    }
}

/// A stretch of block heights of a campaign.
#[derive(Debug, Clone, Copy, PartialEq, Eq, Structural)]
pub enum Window {
    /// From `bnum - commit_balkline` to `bnum - commit_deadline`, both included.
    Commit,
    /// After `bnum - commit_deadline` and before `bnum`.
    Reveal,
    /// From `bnum` on.
    Bounty,
}

/// Whether the heights that bound window `w` can be computed: the commit
/// distances it subtracts from the target block are no larger than it.
pub open spec fn window_defined(info: CampaignInfo, w: Window) -> bool {
    match w {
        Window::Commit => info.commit_balkline@ <= info.bnum@ && info.commit_deadline@ <= info.bnum@,
        Window::Reveal => info.commit_deadline@ <= info.bnum@,
        Window::Bounty => true,
    }
}

/// Whether block height `b` lies in window `w` of the campaign.
pub open spec fn in_window(info: CampaignInfo, w: Window, b: u64) -> bool {
    match w {
        Window::Commit => info.bnum@ - info.commit_balkline@ <= b && b <= info.bnum@
            - info.commit_deadline@,
        Window::Reveal => info.bnum@ - info.commit_deadline@ < b && b < info.bnum@,
        Window::Bounty => info.bnum@ <= b,
    }
}

/// Whether `window_defined` holds.
pub fn window_computable(info: &CampaignInfo, w: Window) -> (r: bool)
    ensures
        r == window_defined(*info, w),
{
    match w {
        Window::Commit => info.commit_balkline.le(&info.bnum) && info.commit_deadline.le(&info.bnum),
        Window::Reveal => info.commit_deadline.le(&info.bnum),
        Window::Bounty => true,
    }
}

/// Whether block height `b` lies in window `w`.
pub fn window_open(info: &CampaignInfo, w: Window, b: u64) -> (r: bool)
    requires
        window_defined(*info, w),
    ensures
        r == in_window(*info, w, b),
{
    let block = U256::from_u64(b);
    match w {
        Window::Commit => {
            let balkline = info.bnum.sub(&info.commit_balkline);
            let deadline = info.bnum.sub(&info.commit_deadline);
            balkline.le(&block) && block.le(&deadline)
        },
        Window::Reveal => {
            let deadline = info.bnum.sub(&info.commit_deadline);
            deadline.lt(&block) && block.lt(&info.bnum)
        },
        Window::Bounty => info.bnum.le(&block),
    }
}

/// Which transaction a receipt is awaited for.
#[derive(Debug, Clone, Copy, PartialEq, Eq, Structural)]
pub enum ReceiptFor {
    /// The commit, before revealing.
    Commit,
    /// The reveal, before reading the random number.
    Reveal,
}

/// What the machine waits for.
#[derive(Debug, Clone, Copy, PartialEq, Eq, Structural)]
pub enum TaskPhase {
    /// Not started: waiting for `Begin`.
    Dispatch,
    WantSecret,
    WantCommitment,
    WantSaved,
    WantBlock(Window),
    WantCommitTx,
    WantReceipt(ReceiptFor),
    WantRevealTx,
    WantRandom,
    WantBounty,
    WantRemoved,
    Done,
}

/// Why a participation ended early.
#[derive(Debug)]
pub enum TaskError {
    ShaCommit,
    BlockNumber,
    Commit,
    Receipt,
    Reveal,
    GetRandom,
    GetBounty,
    /// The progress file could not be written or removed: the text of the
    /// file system's error.
    Storage(String),
    /// The bounty paid was less than the deposit.
    BountyBelowDeposit,
    /// The progress file holds a step the machine does not start from.
    BadStep,
}

/// The mathematical value of a `TaskError`.
pub enum TaskErrorView {
    ShaCommit,
    BlockNumber,
    Commit,
    Receipt,
    Reveal,
    GetRandom,
    GetBounty,
    Storage(Seq<char>),
    BountyBelowDeposit,
    BadStep,
}

impl View for TaskError {
    type V = TaskErrorView;

    open spec fn view(&self) -> TaskErrorView {
        match self {
            TaskError::ShaCommit => TaskErrorView::ShaCommit,
            TaskError::BlockNumber => TaskErrorView::BlockNumber,
            TaskError::Commit => TaskErrorView::Commit,
            TaskError::Receipt => TaskErrorView::Receipt,
            TaskError::Reveal => TaskErrorView::Reveal,
            TaskError::GetRandom => TaskErrorView::GetRandom,
            TaskError::GetBounty => TaskErrorView::GetBounty,
            TaskError::Storage(t) => TaskErrorView::Storage(t@),
            TaskError::BountyBelowDeposit => TaskErrorView::BountyBelowDeposit,
            TaskError::BadStep => TaskErrorView::BadStep,
        }
    }
}

/// The value of an outcome.
pub open spec fn outcome_view(o: core::result::Result<(u128, U256, U256), TaskError>) -> core::result::Result<(u128, U256, U256), TaskErrorView> {
    match o {
        Ok(r) => Ok(r),
        Err(e) => Err(e@),
    }
}

impl TaskError {
    /// The message reported for the error.
    pub fn message(&self) -> (r: String)
        ensures
            r@ == task_error_message(self@),
    {
        let text = match self {
            TaskError::Storage(t) => {
                return t.clone();
            },
            TaskError::ShaCommit => "sha_commit err",
            TaskError::BlockNumber => "block_number err",
            TaskError::Commit => "commit err",
            TaskError::Receipt => "get_receipt error",
            TaskError::Reveal => "reveal err",
            TaskError::GetRandom => "get_random err",
            TaskError::GetBounty => "get_my_bounty err",
            TaskError::BountyBelowDeposit => "my_bounty less than deposit",
            TaskError::BadStep => "task status step error!!!",
        };
        string_from_chars(&chars_of(text))
    }
}

/// The message reported for each error.
pub open spec fn task_error_message(e: TaskErrorView) -> Seq<char> {
    match e {
        TaskErrorView::ShaCommit => "sha_commit err"@,
        TaskErrorView::BlockNumber => "block_number err"@,
        TaskErrorView::Commit => "commit err"@,
        TaskErrorView::Receipt => "get_receipt error"@,
        TaskErrorView::Reveal => "reveal err"@,
        TaskErrorView::GetRandom => "get_random err"@,
        TaskErrorView::GetBounty => "get_my_bounty err"@,
        TaskErrorView::Storage(t) => t,
        TaskErrorView::BountyBelowDeposit => "my_bounty less than deposit"@,
        TaskErrorView::BadStep => "task status step error!!!"@,
    }
}

/// What came of the last action.
pub enum TaskEvent {
    /// Start (or resume) the participation.
    Begin,
    /// A fresh secret, as a decimal numeral.
    Secret(String),
    /// The contract's hash of the secret, if the call succeeded.
    Commitment(Option<Vec<u8>>),
    /// The current block height, if it could be read.
    Block(Option<u64>),
    /// The hash of the transaction sent, if sending succeeded.
    TxSent(Option<H256>),
    /// Whether the receipt of the last transaction was found.
    Receipt(bool),
    /// A number read from the contract, if the call succeeded.
    Number(Option<U256>),
    /// Whether the progress file was written, or the file system's error.
    Saved(core::result::Result<(), String>),
    /// Whether the progress file was removed, or the file system's error.
    Removed(core::result::Result<(), String>),
}

/// The mathematical value of a `TaskEvent`.
pub enum TaskEventView {
    Begin,
    Secret(Seq<char>),
    Commitment(Option<Seq<u8>>),
    Block(Option<u64>),
    TxSent(Option<H256>),
    Receipt(bool),
    Number(Option<U256>),
    Saved(core::result::Result<(), Seq<char>>),
    Removed(core::result::Result<(), Seq<char>>),
}

impl View for TaskEvent {
    type V = TaskEventView;

    open spec fn view(&self) -> TaskEventView {
        match self {
            TaskEvent::Begin => TaskEventView::Begin,
            TaskEvent::Secret(s) => TaskEventView::Secret(s@),
            TaskEvent::Commitment(c) => TaskEventView::Commitment(
                match c {
                    Some(v) => Some(v@),
                    None => None,
                },
            ),
            TaskEvent::Block(b) => TaskEventView::Block(*b),
            TaskEvent::TxSent(h) => TaskEventView::TxSent(*h),
            TaskEvent::Receipt(r) => TaskEventView::Receipt(*r),
            TaskEvent::Number(n) => TaskEventView::Number(*n),
            TaskEvent::Saved(s) => TaskEventView::Saved(
                match s {
                    Ok(_) => Ok(()),
                    Err(t) => Err(t@),
                },
            ),
            TaskEvent::Removed(r) => TaskEventView::Removed(
                match r {
                    Ok(_) => Ok(()),
                    Err(t) => Err(t@),
                },
            ),
        }
    }
}

/// What the caller is to do next.
pub enum TaskAction {
    /// Choose a fresh random secret and report it with `Secret`.
    NewSecret,
    /// Ask the contract for the hash of the secret; report with `Commitment`.
    ShaCommit(String),
    /// Read the block height, after waiting for a new block if `wait_first`;
    /// report with `Block`.
    ReadBlock { wait_first: bool },
    /// Send the commit; report with `TxSent`.
    Commit { campaign_id: u128, deposit: u128, hs: Vec<u8> },
    /// Look up the receipt of a transaction; report with `Receipt`.
    FetchReceipt(H256),
    /// Send the reveal; report with `TxSent`.
    Reveal { campaign_id: u128, deposit: u128, secret: String },
    /// Read the campaign's random number; report with `Number`.
    GetRandom(u128),
    /// Claim the bounty; report the amount with `Number`.
    GetBounty(u128),
    /// Write the progress file; if that succeeds and `inc_gauge`, count one
    /// more ongoing campaign (this happens once, for the commit). Report with `Saved`.
    Save { status: TaskStatus, inc_gauge: bool },
    /// Remove the progress file; report with `Removed`.
    RemoveFile,
    /// The participation is over; if `dec_gauge`, count one ongoing campaign less.
    Finish { outcome: core::result::Result<(u128, U256, U256), TaskError>, dec_gauge: bool },
    /// The event did not fit the machine's state; nothing changed.
    Ignored,
}

/// The mathematical value of a `TaskAction`.
pub enum TaskActionView {
    NewSecret,
    ShaCommit(Seq<char>),
    ReadBlock { wait_first: bool },
    Commit { campaign_id: u128, deposit: u128, hs: Seq<u8> },
    FetchReceipt(H256),
    Reveal { campaign_id: u128, deposit: u128, secret: Seq<char> },
    GetRandom(u128),
    GetBounty(u128),
    Save { status: TaskStatusView, inc_gauge: bool },
    RemoveFile,
    Finish { outcome: core::result::Result<(u128, U256, U256), TaskErrorView>, dec_gauge: bool },
    Ignored,
}

impl View for TaskAction {
    type V = TaskActionView;

    open spec fn view(&self) -> TaskActionView {
        match self {
            TaskAction::NewSecret => TaskActionView::NewSecret,
            TaskAction::ShaCommit(s) => TaskActionView::ShaCommit(s@),
            TaskAction::ReadBlock { wait_first } => TaskActionView::ReadBlock {
                wait_first: *wait_first,
            },
            TaskAction::Commit { campaign_id, deposit, hs } => TaskActionView::Commit {
                campaign_id: *campaign_id,
                deposit: *deposit,
                hs: hs@,
            },
            TaskAction::FetchReceipt(h) => TaskActionView::FetchReceipt(*h),
            TaskAction::Reveal { campaign_id, deposit, secret } => TaskActionView::Reveal {
                campaign_id: *campaign_id,
                deposit: *deposit,
                secret: secret@,
            },
            TaskAction::GetRandom(id) => TaskActionView::GetRandom(*id),
            TaskAction::GetBounty(id) => TaskActionView::GetBounty(*id),
            TaskAction::Save { status, inc_gauge } => TaskActionView::Save {
                status: status@,
                inc_gauge: *inc_gauge,
            },
            TaskAction::RemoveFile => TaskActionView::RemoveFile,
            TaskAction::Finish { outcome, dec_gauge } => TaskActionView::Finish {
                outcome: outcome_view(*outcome),
                dec_gauge: *dec_gauge,
            },
            TaskAction::Ignored => TaskActionView::Ignored,
        }
    }
}

/// The participation machine: the progress, what it waits for, the last
/// block height read, the bounty once claimed, and whether the participation
/// is counted among the ongoing campaigns (from the confirmed save of its
/// commit until it is released).
pub struct TaskMachine {
    pub status: TaskStatus,
    pub phase: TaskPhase,
    pub block: u64,
    pub bounty: U256,
    pub counted: bool,
}

/// The mathematical value of a `TaskMachine`.
pub struct TaskMachineView {
    pub status: TaskStatusView,
    pub phase: TaskPhase,
    pub block: u64,
    pub bounty: U256,
    pub counted: bool,
}

impl View for TaskMachine {
    type V = TaskMachineView;

    open spec fn view(&self) -> TaskMachineView {
        TaskMachineView {
            status: self.status@,
            phase: self.phase,
            block: self.block,
            bounty: self.bounty,
            counted: self.counted,
        }
    }
}

/// The machine in phase `p`.
pub open spec fn with_phase(m: TaskMachineView, p: TaskPhase) -> TaskMachineView {
    TaskMachineView { phase: p, ..m }
}

/// Ending with an error.
pub open spec fn fail(m: TaskMachineView, e: TaskErrorView) -> (TaskMachineView, TaskActionView) {
    release(m, Err(e))
}

/// Ending the participation with `outcome` and releasing its place among
/// the ongoing campaigns, if it held one.
pub open spec fn release(
    m: TaskMachineView,
    outcome: core::result::Result<(u128, U256, U256), TaskErrorView>,
) -> (TaskMachineView, TaskActionView) {
    (
        TaskMachineView { phase: TaskPhase::Done, counted: false, ..m },
        TaskActionView::Finish { outcome, dec_gauge: m.counted },
    )
}

/// Recording new progress: the status becomes `s` and is written out.
pub open spec fn save(m: TaskMachineView, s: TaskStatusView, inc: bool) -> (
    TaskMachineView,
    TaskActionView,
) {
    (
        TaskMachineView { status: s, phase: TaskPhase::WantSaved, ..m },
        TaskActionView::Save { status: s, inc_gauge: inc },
    )
}

/// The first action of the step the status is at (steps 0 to 4).
pub open spec fn resume(m: TaskMachineView) -> (TaskMachineView, TaskActionView) {
    let s = m.status;
    if s.step == 0 {
        (with_phase(m, TaskPhase::WantSecret), TaskActionView::NewSecret)
    } else if s.step == 1 {
        (
            with_phase(m, TaskPhase::WantBlock(Window::Commit)),
            TaskActionView::ReadBlock { wait_first: false },
        )
    } else if s.step == 2 {
        (
            with_phase(m, TaskPhase::WantBlock(Window::Reveal)),
            TaskActionView::ReadBlock { wait_first: false },
        )
    } else if s.step == 3 {
        (
            with_phase(m, TaskPhase::WantBlock(Window::Bounty)),
            TaskActionView::ReadBlock { wait_first: false },
        )
    } else {
        (with_phase(m, TaskPhase::WantBounty), TaskActionView::GetBounty(s.campaign_id))
    }
}

/// One transition of the participation machine.
pub open spec fn task_next(m: TaskMachineView, e: TaskEventView) -> (
    TaskMachineView,
    TaskActionView,
) {
    let s = m.status;
    let info = s.campaign_info;
    match m.phase {
        TaskPhase::Dispatch => match e {
            TaskEventView::Begin => if s.step <= 4 {
                resume(m)
            } else {
                fail(m, TaskErrorView::BadStep)
            },
            _ => (m, TaskActionView::Ignored),
        },
        TaskPhase::WantSecret => match e {
            TaskEventView::Secret(x) => (
                TaskMachineView {
                    status: TaskStatusView { secret: x, ..s },
                    phase: TaskPhase::WantCommitment,
                    ..m
                },
                TaskActionView::ShaCommit(x),
            ),
            _ => (m, TaskActionView::Ignored),
        },
        TaskPhase::WantCommitment => match e {
            TaskEventView::Commitment(None) => fail(m, TaskErrorView::ShaCommit),
            TaskEventView::Commitment(Some(hs)) => save(
                m,
                TaskStatusView { step: 1, hs: hs, ..s },
                false,
            ),
            _ => (m, TaskActionView::Ignored),
        },
        TaskPhase::WantSaved => match e {
            TaskEventView::Saved(Err(t)) => fail(m, TaskErrorView::Storage(t)),
            TaskEventView::Saved(Ok(_)) => {
                let m2 = TaskMachineView { counted: s.step == 2 || m.counted, ..m };
                if s.step == 5 {
                    (with_phase(m2, TaskPhase::WantRemoved), TaskActionView::RemoveFile)
                } else {
                    resume(m2)
                }
            },
            _ => (m, TaskActionView::Ignored),
        },
        TaskPhase::WantBlock(w) => match e {
            TaskEventView::Block(None) => fail(m, TaskErrorView::BlockNumber),
            TaskEventView::Block(Some(b)) => {
                let m2 = TaskMachineView { block: b, ..m };
                if in_window(info, w, b) {
                    match w {
                        Window::Commit => (
                            with_phase(m2, TaskPhase::WantCommitTx),
                            TaskActionView::Commit {
                                campaign_id: s.campaign_id,
                                deposit: info.deposit@ as u128,
                                hs: s.hs,
                            },
                        ),
                        Window::Reveal => (
                            with_phase(m2, TaskPhase::WantReceipt(ReceiptFor::Commit)),
                            TaskActionView::FetchReceipt(s.tx_hash),
                        ),
                        Window::Bounty => (
                            with_phase(m2, TaskPhase::WantReceipt(ReceiptFor::Reveal)),
                            TaskActionView::FetchReceipt(s.tx_hash),
                        ),
                    }
                } else {
                    (m2, TaskActionView::ReadBlock { wait_first: true })
                }
            },
            _ => (m, TaskActionView::Ignored),
        },
        TaskPhase::WantCommitTx => match e {
            TaskEventView::TxSent(None) => fail(m, TaskErrorView::Commit),
            TaskEventView::TxSent(Some(h)) => save(
                m,
                TaskStatusView { step: 2, tx_hash: h, ..s },
                true,
            ),
            _ => (m, TaskActionView::Ignored),
        },
        TaskPhase::WantReceipt(ReceiptFor::Commit) => match e {
            TaskEventView::Receipt(false) => fail(m, TaskErrorView::Receipt),
            TaskEventView::Receipt(true) => (
                with_phase(m, TaskPhase::WantRevealTx),
                TaskActionView::Reveal {
                    campaign_id: s.campaign_id,
                    deposit: info.deposit@ as u128,
                    secret: s.secret,
                },
            ),
            _ => (m, TaskActionView::Ignored),
        },
        TaskPhase::WantRevealTx => match e {
            TaskEventView::TxSent(None) => release(m, Err(TaskErrorView::Reveal)),
            TaskEventView::TxSent(Some(h)) => save(
                m,
                TaskStatusView { step: 3, tx_hash: h, ..s },
                false,
            ),
            _ => (m, TaskActionView::Ignored),
        },
        TaskPhase::WantReceipt(ReceiptFor::Reveal) => match e {
            TaskEventView::Receipt(false) => fail(m, TaskErrorView::Receipt),
            TaskEventView::Receipt(true) => (
                with_phase(m, TaskPhase::WantRandom),
                TaskActionView::GetRandom(s.campaign_id),
            ),
            _ => (m, TaskActionView::Ignored),
        },
        TaskPhase::WantRandom => match e {
            TaskEventView::Number(None) => fail(m, TaskErrorView::GetRandom),
            TaskEventView::Number(Some(n)) => save(
                m,
                TaskStatusView { step: 4, randao_num: n, ..s },
                false,
            ),
            _ => (m, TaskActionView::Ignored),
        },
        TaskPhase::WantBounty => match e {
            TaskEventView::Number(None) => fail(m, TaskErrorView::GetBounty),
            TaskEventView::Number(Some(n)) => save(
                TaskMachineView { bounty: n, ..m },
                TaskStatusView { step: 5, ..s },
                false,
            ),
            _ => (m, TaskActionView::Ignored),
        },
        TaskPhase::WantRemoved => match e {
            TaskEventView::Removed(Err(t)) => fail(m, TaskErrorView::Storage(t)),
            TaskEventView::Removed(Ok(_)) => if m.bounty@ < info.deposit@ {
                fail(m, TaskErrorView::BountyBelowDeposit)
            } else {
                release(m, Ok((s.campaign_id, s.randao_num, m.bounty)))
            },
            _ => (m, TaskActionView::Ignored),
        },
        TaskPhase::Done => (m, TaskActionView::Ignored),
    }
}

/// Whether the transition on `e` is defined: the window it tests can be
/// computed, and the deposit it sends fits in 128 bits.
pub open spec fn step_defined(m: TaskMachineView, e: TaskEventView) -> bool {
    let info = m.status.campaign_info;
    match m.phase {
        TaskPhase::WantBlock(w) => match e {
            TaskEventView::Block(Some(b)) => window_defined(info, w) && (w == Window::Commit
                && in_window(info, w, b) ==> info.deposit@ <= u128::MAX),
            _ => true,
        },
        TaskPhase::WantReceipt(ReceiptFor::Commit) => match e {
            TaskEventView::Receipt(true) => info.deposit@ <= u128::MAX,
            _ => true,
        },
        _ => true,
    }
}

impl TaskMachine {
    /// A machine about to start from the given progress.
    pub fn new(status: TaskStatus) -> (r: TaskMachine)
        ensures
            r.status@ == status@,
            r.phase == TaskPhase::Dispatch,
            r.block == 0,
            r.bounty@ == 0,
            !r.counted,
    {
        TaskMachine {
            status,
            phase: TaskPhase::Dispatch,
            block: 0,
            bounty: U256::zero(),
            counted: false,
        }
    }

    fn set_phase(&mut self, p: TaskPhase)
        ensures
            final(self)@ == with_phase(old(self)@, p),
    {
        self.phase = p;
    }

    fn fail(&mut self, e: TaskError) -> (a: TaskAction)
        ensures
            (final(self)@, a@) == fail(old(self)@, e@),
    {
        self.release(Err(e))
    }

    fn release(&mut self, outcome: core::result::Result<(u128, U256, U256), TaskError>) -> (a:
        TaskAction)
        ensures
            (final(self)@, a@) == release(old(self)@, outcome_view(outcome)),
    {
        let dec = self.counted;
        self.phase = TaskPhase::Done;
        self.counted = false;
        TaskAction::Finish { outcome, dec_gauge: dec }
    }

    fn save(&mut self, inc: bool) -> (a: TaskAction)
        ensures
            final(self)@ == with_phase(old(self)@, TaskPhase::WantSaved),
            a@ == (TaskActionView::Save { status: old(self)@.status, inc_gauge: inc }),
    {
        self.phase = TaskPhase::WantSaved;
        TaskAction::Save { status: self.status.duplicate(), inc_gauge: inc }
    }

    fn resume(&mut self) -> (a: TaskAction)
        ensures
            (final(self)@, a@) == resume(old(self)@),
    {
        let step = self.status.step;
        if step == 0 {
            self.set_phase(TaskPhase::WantSecret);
            TaskAction::NewSecret
        } else if step == 1 {
            self.set_phase(TaskPhase::WantBlock(Window::Commit));
            TaskAction::ReadBlock { wait_first: false }
        } else if step == 2 {
            self.set_phase(TaskPhase::WantBlock(Window::Reveal));
            TaskAction::ReadBlock { wait_first: false }
        } else if step == 3 {
            self.set_phase(TaskPhase::WantBlock(Window::Bounty));
            TaskAction::ReadBlock { wait_first: false }
        } else {
            self.set_phase(TaskPhase::WantBounty);
            TaskAction::GetBounty(self.status.campaign_id)
        }
    }

    /// Whether `step` is defined on `e`.
    pub fn can_step(&self, e: &TaskEvent) -> (r: bool)
        ensures
            r == step_defined(self@, e@),
    {
        let info = &self.status.campaign_info;
        match self.phase {
            TaskPhase::WantBlock(w) => match e {
                TaskEvent::Block(Some(b)) => {
                    if !window_computable(info, w) {
                        false
                    } else if w == Window::Commit && window_open(info, w, *b) {
                        info.deposit.fits_u128()
                    } else {
                        true
                    }
                },
                _ => true,
            },
            TaskPhase::WantReceipt(ReceiptFor::Commit) => match e {
                TaskEvent::Receipt(true) => info.deposit.fits_u128(),
                _ => true,
            },
            _ => true,
        }
    }

    /// Takes one event and gives the next action.
    pub fn step(&mut self, e: TaskEvent) -> (a: TaskAction)
        requires
            step_defined(old(self)@, e@),
        ensures
            (final(self)@, a@) == task_next(old(self)@, e@),
            final(self).status.campaign_info == old(self).status.campaign_info,
    {
        let info = self.status.campaign_info;
        match self.phase {
            TaskPhase::Dispatch => match e {
                TaskEvent::Begin => if self.status.step <= 4 {
                    self.resume()
                } else {
                    self.fail(TaskError::BadStep)
                },
                _ => TaskAction::Ignored,
            },
            TaskPhase::WantSecret => match e {
                TaskEvent::Secret(x) => {
                    let y = x.clone();
                    self.status.secret = x;
                    self.phase = TaskPhase::WantCommitment;
                    TaskAction::ShaCommit(y)
                },
                _ => TaskAction::Ignored,
            },
            TaskPhase::WantCommitment => match e {
                TaskEvent::Commitment(None) => self.fail(TaskError::ShaCommit),
                TaskEvent::Commitment(Some(hs)) => {
                    self.status.step = 1;
                    self.status.hs = hs;
                    self.save(false)
                },
                _ => TaskAction::Ignored,
            },
            TaskPhase::WantSaved => match e {
                TaskEvent::Saved(Err(t)) => self.fail(TaskError::Storage(t)),
                TaskEvent::Saved(Ok(())) => {
                    if self.status.step == 2 {
                        self.counted = true;
                    }
                    if self.status.step == 5 {
                        self.phase = TaskPhase::WantRemoved;
                        TaskAction::RemoveFile
                    } else {
                        self.resume()
                    }
                },
                _ => TaskAction::Ignored,
            },
            TaskPhase::WantBlock(w) => match e {
                TaskEvent::Block(None) => self.fail(TaskError::BlockNumber),
                TaskEvent::Block(Some(b)) => {
                    self.block = b;
                    if window_open(&info, w, b) {
                        match w {
                            Window::Commit => {
                                self.phase = TaskPhase::WantCommitTx;
                                TaskAction::Commit {
                                    campaign_id: self.status.campaign_id,
                                    deposit: info.deposit.as_u128(),
                                    hs: copy_bytes(&self.status.hs),
                                }
                            },
                            Window::Reveal => {
                                self.phase = TaskPhase::WantReceipt(ReceiptFor::Commit);
                                TaskAction::FetchReceipt(self.status.tx_hash)
                            },
                            Window::Bounty => {
                                self.phase = TaskPhase::WantReceipt(ReceiptFor::Reveal);
                                TaskAction::FetchReceipt(self.status.tx_hash)
                            },
                        }
                    } else {
                        TaskAction::ReadBlock { wait_first: true }
                    }
                },
                _ => TaskAction::Ignored,
            },
            TaskPhase::WantCommitTx => match e {
                TaskEvent::TxSent(None) => self.fail(TaskError::Commit),
                TaskEvent::TxSent(Some(h)) => {
                    self.status.step = 2;
                    self.status.tx_hash = h;
                    self.save(true)
                },
                _ => TaskAction::Ignored,
            },
            TaskPhase::WantReceipt(ReceiptFor::Commit) => match e {
                TaskEvent::Receipt(false) => self.fail(TaskError::Receipt),
                TaskEvent::Receipt(true) => {
                    self.phase = TaskPhase::WantRevealTx;
                    TaskAction::Reveal {
                        campaign_id: self.status.campaign_id,
                        deposit: info.deposit.as_u128(),
                        secret: self.status.secret.clone(),
                    }
                },
                _ => TaskAction::Ignored,
            },
            TaskPhase::WantRevealTx => match e {
                TaskEvent::TxSent(None) => self.release(Err(TaskError::Reveal)),
                TaskEvent::TxSent(Some(h)) => {
                    self.status.step = 3;
                    self.status.tx_hash = h;
                    self.save(false)
                },
                _ => TaskAction::Ignored,
            },
            TaskPhase::WantReceipt(ReceiptFor::Reveal) => match e {
                TaskEvent::Receipt(false) => self.fail(TaskError::Receipt),
                TaskEvent::Receipt(true) => {
                    self.phase = TaskPhase::WantRandom;
                    TaskAction::GetRandom(self.status.campaign_id)
                },
                _ => TaskAction::Ignored,
            },
            TaskPhase::WantRandom => match e {
                TaskEvent::Number(None) => self.fail(TaskError::GetRandom),
                TaskEvent::Number(Some(n)) => {
                    self.status.step = 4;
                    self.status.randao_num = n;
                    self.save(false)
                },
                _ => TaskAction::Ignored,
            },
            TaskPhase::WantBounty => match e {
                TaskEvent::Number(None) => self.fail(TaskError::GetBounty),
                TaskEvent::Number(Some(n)) => {
                    self.bounty = n;
                    self.status.step = 5;
                    self.save(false)
                },
                _ => TaskAction::Ignored,
            },
            TaskPhase::WantRemoved => match e {
                TaskEvent::Removed(Err(t)) => self.fail(TaskError::Storage(t)),
                TaskEvent::Removed(Ok(())) => if self.bounty.lt(&info.deposit) {
                    self.fail(TaskError::BountyBelowDeposit)
                } else {
                    let outcome = Ok((self.status.campaign_id, self.status.randao_num, self.bounty));
                    self.release(outcome)
                },
                _ => TaskAction::Ignored,
            },
            TaskPhase::Done => TaskAction::Ignored,
        }
    }
}


/// How a participation begins, given whether its progress file exists, is a
/// regular file, and whether the campaign record was handed over.
#[derive(Debug, Clone, Copy, PartialEq, Eq, Structural)]
pub enum StartPlan {
    /// Read the progress file and resume from it.
    Load,
    /// Create the progress file and start from step 0.
    Create,
    /// Started with a record although progress exists.
    InfoButFileExists,
    /// The progress path is not a regular file.
    NotAFile,
    /// Started without a record and no progress exists.
    NoInfoNoFile,
}

/// The message reported when a participation cannot begin.
pub open spec fn start_plan_message(p: StartPlan) -> Seq<char> {
    match p {
        StartPlan::InfoButFileExists => "campaign_ids json exists, but call WorkThd::new() init!!!"@,
        StartPlan::NotAFile => "campaign_ids json file is not file!!!"@,
        StartPlan::NoInfoNoFile => "campaign_ids json not exists, but call WorkThd::new_from_campaign_id() init!!!"@,
        _ => ""@,
    }
}

/// How a participation begins.
pub open spec fn start_plan(exists: bool, is_file: bool, has_info: bool) -> StartPlan {
    if exists {
        if has_info {
            StartPlan::InfoButFileExists
        } else if is_file {
            StartPlan::Load
        } else {
            StartPlan::NotAFile
        }
    } else if has_info {
        StartPlan::Create
    } else {
        StartPlan::NoInfoNoFile
    }
}

/// Decides how a participation begins.
pub fn plan_start(exists: bool, is_file: bool, has_info: bool) -> (r: StartPlan)
    ensures
        r == start_plan(exists, is_file, has_info),
{
    if exists {
        if has_info {
            StartPlan::InfoButFileExists
        } else if is_file {
            StartPlan::Load
        } else {
            StartPlan::NotAFile
        }
    } else if has_info {
        StartPlan::Create
    } else {
        StartPlan::NoInfoNoFile
    }
}

impl StartPlan {
    /// The message reported when the participation cannot begin (empty otherwise).
    pub fn message(&self) -> (r: &'static str)
        ensures
            r@ == start_plan_message(*self),
    {
        match self {
            StartPlan::InfoButFileExists => "campaign_ids json exists, but call WorkThd::new() init!!!",
            StartPlan::NotAFile => "campaign_ids json file is not file!!!",
            StartPlan::NoInfoNoFile => "campaign_ids json not exists, but call WorkThd::new_from_campaign_id() init!!!",
            _ => "",
        }
    }
}

// ---------------------------------------------------------------------------
// Laws of the participation machine.
// ---------------------------------------------------------------------------

/// The states the machine can be in: each phase goes with the step it works
/// on, a phase entered on a block height remembers one inside the window, and
/// a participation is counted among the ongoing campaigns only once its
/// commit is recorded (step 2 on), never before it starts nor while the
/// commit's save awaits confirmation.
pub open spec fn task_inv(m: TaskMachineView) -> bool {
    &&& phase_inv(m)
    &&& m.phase == TaskPhase::Dispatch ==> !m.counted
    &&& m.counted ==> m.status.step >= 2
    &&& (m.phase == TaskPhase::WantSaved && m.status.step == 2) ==> !m.counted
}

/// Each phase goes with the step it works on, and a phase entered on a
/// block height remembers one inside the window.
pub open spec fn phase_inv(m: TaskMachineView) -> bool {
    let s = m.status;
    let info = s.campaign_info;
    match m.phase {
        TaskPhase::Dispatch => true,
        TaskPhase::Done => true,
        TaskPhase::WantSecret => s.step == 0,
        TaskPhase::WantCommitment => s.step == 0,
        TaskPhase::WantSaved => 1 <= s.step <= 5,
        TaskPhase::WantBlock(Window::Commit) => s.step == 1,
        TaskPhase::WantBlock(Window::Reveal) => s.step == 2,
        TaskPhase::WantBlock(Window::Bounty) => s.step == 3,
        TaskPhase::WantCommitTx => s.step == 1 && in_window(info, Window::Commit, m.block),
        TaskPhase::WantReceipt(ReceiptFor::Commit) => s.step == 2 && in_window(
            info,
            Window::Reveal,
            m.block,
        ),
        TaskPhase::WantRevealTx => s.step == 2 && in_window(info, Window::Reveal, m.block),
        TaskPhase::WantReceipt(ReceiptFor::Reveal) => s.step == 3 && in_window(
            info,
            Window::Bounty,
            m.block,
        ),
        TaskPhase::WantRandom => s.step == 3 && in_window(info, Window::Bounty, m.block),
        TaskPhase::WantBounty => s.step == 4,
        TaskPhase::WantRemoved => s.step == 5,
    }
}

/// A new machine is in a reachable state.
pub proof fn lemma_task_new_inv(m: TaskMachineView)
    requires
        m.phase == TaskPhase::Dispatch,
        !m.counted,
    ensures
        task_inv(m),
{
}

/// Every transition keeps the machine in a reachable state, never changes
/// the campaign it works on, moves the step forward by at most one, and,
/// once the secret is hashed (step 1 on), keeps the secret and its
/// commitment as they are.
pub proof fn lemma_task_next_inv(m: TaskMachineView, e: TaskEventView)
    requires
        task_inv(m),
    ensures
        task_inv(task_next(m, e).0),
        task_next(m, e).0.status.campaign_id == m.status.campaign_id,
        task_next(m, e).0.status.campaign_info == m.status.campaign_info,
        task_next(m, e).0.status.step == m.status.step || task_next(m, e).0.status.step
            == m.status.step + 1,
        m.status.step >= 1 ==> task_next(m, e).0.status.secret == m.status.secret
            && task_next(m, e).0.status.hs == m.status.hs,
{
}

/// Progress is never lost: whenever the step moves on, the action is to
/// write out exactly the new status.
pub proof fn lemma_task_step_change_is_saved(m: TaskMachineView, e: TaskEventView)
    requires
        task_inv(m),
        task_next(m, e).0.status.step != m.status.step,
    ensures
        task_next(m, e).1 matches TaskActionView::Save { status, .. } && status == task_next(
            m,
            e,
        ).0.status,
{
}

/// Commits are sent only inside the commit window, reveals only inside the
/// reveal window, and the random number is read only from the target block
/// on; each against the block height last read.
pub proof fn lemma_task_actions_in_window(m: TaskMachineView, e: TaskEventView)
    requires
        task_inv(m),
    ensures
        task_next(m, e).1 is Commit ==> in_window(
            m.status.campaign_info,
            Window::Commit,
            task_next(m, e).0.block,
        ),
        task_next(m, e).1 is Reveal ==> in_window(
            m.status.campaign_info,
            Window::Reveal,
            task_next(m, e).0.block,
        ),
        task_next(m, e).1 is GetRandom ==> in_window(
            m.status.campaign_info,
            Window::Bounty,
            task_next(m, e).0.block,
        ),
{
}

/// Each contract call goes with the one step whose work it does: the secret
/// is hashed only at step 0, the commit sent only at step 1 and the reveal
/// only at step 2, the random number read only at step 3 and the bounty
/// claimed only at step 4. Since each step is saved before the next begins,
/// a participation resumed from its progress file never repeats a
/// transaction that the file records.
pub proof fn lemma_task_calls_match_step(m: TaskMachineView, e: TaskEventView)
    requires
        task_inv(m),
    ensures
        task_next(m, e).1 is NewSecret ==> m.status.step == 0,
        task_next(m, e).1 is ShaCommit ==> m.status.step == 0,
        task_next(m, e).1 is Commit ==> m.status.step == 1,
        task_next(m, e).1 is Reveal ==> m.status.step == 2,
        task_next(m, e).1 is GetRandom ==> m.status.step == 3,
        task_next(m, e).1 is GetBounty ==> m.status.step == 4,
{
}

/// A participation succeeds only with a bounty no smaller than the deposit,
/// reports the campaign's own id and the random number it read, and gives
/// back its place among the ongoing campaigns if it held one.
pub proof fn lemma_task_success(m: TaskMachineView, e: TaskEventView)
    requires
        task_next(m, e).1 matches TaskActionView::Finish { outcome: Ok(_), .. },
    ensures
        task_next(m, e).1 matches TaskActionView::Finish { outcome: Ok((id, r, b)), dec_gauge }
            && id == m.status.campaign_id && r == m.status.randao_num && b@
            >= m.status.campaign_info.deposit@ && dec_gauge == m.counted,
        m.phase == TaskPhase::WantRemoved,
{
}

/// A finished participation stays finished.
pub proof fn lemma_task_done_final(m: TaskMachineView, e: TaskEventView)
    requires
        m.phase == TaskPhase::Done,
    ensures
        task_next(m, e) == (m, TaskActionView::Ignored),
{
}

/// The three windows of a campaign do not overlap and come in order (the
/// commit and bounty windows share the target block when commits close at it).
pub proof fn lemma_windows_ordered(info: CampaignInfo, a: u64, b: u64)
    requires
        window_defined(info, Window::Commit),
    ensures
        !(in_window(info, Window::Commit, a) && in_window(info, Window::Reveal, a)),
        !(in_window(info, Window::Reveal, a) && in_window(info, Window::Bounty, a)),
        info.commit_deadline@ > 0 ==> !(in_window(info, Window::Commit, a) && in_window(
            info,
            Window::Bounty,
            a,
        )),
        info.commit_deadline@ > 0 && in_window(info, Window::Commit, a) && in_window(
            info,
            Window::Bounty,
            b,
        ) ==> a < b,
        in_window(info, Window::Commit, a) && in_window(info, Window::Reveal, b) ==> a < b,
        in_window(info, Window::Reveal, a) && in_window(info, Window::Bounty, b) ==> a < b,
{
}


// ---------------------------------------------------------------------------
// The ongoing-campaign gauge, and whole runs of the machine.
// ---------------------------------------------------------------------------

/// `1` for `true`, `0` for `false`.
pub open spec fn one_if(b: bool) -> int {
    if b {
        1
    } else {
        0
    }
}

/// What one transition does to the ongoing-campaign gauge: one more when the
/// save of the commit (the only save that asks for it) is confirmed, one
/// less when the action finishes with `dec_gauge`.
pub open spec fn gauge_effect(m: TaskMachineView, e: TaskEventView) -> int {
    one_if(m.phase == TaskPhase::WantSaved && m.status.step == 2 && e matches TaskEventView::Saved(
        Ok(_),
    )) - one_if(task_next(m, e).1 matches TaskActionView::Finish { dec_gauge: true, .. })
}

/// The gauge goes up once, for the confirmed save of the commit (the only
/// save that asks for an increment), and down exactly when a counted
/// participation ends, whatever its outcome; each transition changes the
/// gauge exactly as it changes whether the participation is counted.
pub proof fn lemma_task_gauge(m: TaskMachineView, e: TaskEventView)
    requires
        task_inv(m),
    ensures
        gauge_effect(m, e) == one_if(task_next(m, e).0.counted) - one_if(m.counted),
        task_next(m, e).1 matches TaskActionView::Save { status, inc_gauge: true } ==> status.step
            == 2,
        task_next(m, e).1 matches TaskActionView::Finish { dec_gauge, .. } ==> dec_gauge
            == m.counted && task_next(m, e).0.phase == TaskPhase::Done && !task_next(m, e).0.counted,
{
}

/// The machine after the events `es`.
pub open spec fn run(m: TaskMachineView, es: Seq<TaskEventView>) -> TaskMachineView
    decreases es.len(),
{
    if es.len() == 0 {
        m
    } else {
        run(task_next(m, es[0]).0, es.drop_first())
    }
}

/// The actions the machine gives on the events `es`, one per event.
pub open spec fn run_actions(m: TaskMachineView, es: Seq<TaskEventView>) -> Seq<TaskActionView>
    decreases es.len(),
{
    if es.len() == 0 {
        Seq::empty()
    } else {
        seq![task_next(m, es[0]).1] + run_actions(task_next(m, es[0]).0, es.drop_first())
    }
}

/// The total change of the gauge over the events `es`.
pub open spec fn run_gauge(m: TaskMachineView, es: Seq<TaskEventView>) -> int
    decreases es.len(),
{
    if es.len() == 0 {
        0
    } else {
        gauge_effect(m, es[0]) + run_gauge(task_next(m, es[0]).0, es.drop_first())
    }
}

/// Over any run from a reachable state, the machine stays reachable, gives
/// one action per event, and changes the gauge by exactly the change in
/// whether it is counted; so a participation that starts uncounted never
/// takes the gauge below where it found it, nor more than one above.
pub proof fn lemma_task_run(m: TaskMachineView, es: Seq<TaskEventView>)
    requires
        task_inv(m),
    ensures
        task_inv(run(m, es)),
        run_actions(m, es).len() == es.len(),
        run_gauge(m, es) == one_if(run(m, es).counted) - one_if(m.counted),
        !m.counted ==> 0 <= run_gauge(m, es) <= 1,
    decreases es.len(),
{
    if es.len() > 0 {
        lemma_task_next_inv(m, es[0]);
        lemma_task_gauge(m, es[0]);
        lemma_task_run(task_next(m, es[0]).0, es.drop_first());
    }
}

/// A finished machine ignores every later event.
proof fn lemma_run_done(m: TaskMachineView, es: Seq<TaskEventView>)
    requires
        m.phase == TaskPhase::Done,
    ensures
        run(m, es) == m,
    decreases es.len(),
{
    if es.len() > 0 {
        lemma_run_done(task_next(m, es[0]).0, es.drop_first());
    }
}

/// Once the participation has ended, the machine is no longer counted.
proof fn lemma_run_released(m: TaskMachineView, es: Seq<TaskEventView>, i: int)
    requires
        task_inv(m),
        0 <= i < es.len(),
        run_actions(m, es)[i] is Finish,
    ensures
        !run(m, es).counted,
    decreases es.len(),
{
    let n = task_next(m, es[0]).0;
    lemma_task_next_inv(m, es[0]);
    lemma_task_gauge(m, es[0]);
    if i == 0 {
        lemma_run_done(n, es.drop_first());
    } else {
        lemma_task_run(n, es.drop_first());
        assert(run_actions(m, es)[i] == run_actions(n, es.drop_first())[i - 1]);
        lemma_run_released(n, es.drop_first(), i - 1);
    }
}

/// A participation started uncounted leaves the ongoing-campaign gauge as it
/// found it once it has ended, whatever its outcome and whatever events
/// come after.
pub proof fn lemma_task_gauge_balanced(m: TaskMachineView, es: Seq<TaskEventView>, i: int)
    requires
        task_inv(m),
        !m.counted,
        0 <= i < es.len(),
        run_actions(m, es)[i] is Finish,
    ensures
        run_gauge(m, es) == 0,
{
    lemma_task_run(m, es);
    lemma_run_released(m, es, i);
}

/// Whether action `a`, given by a participation resumed from progress `s`
/// (step 1 on), repeats nothing that `s` records: no new secret and no new
/// hashing; a commit only if `s` records none, and with the stored
/// commitment; a reveal only if `s` records none, and with the stored
/// secret; the random number only if `s` has not read it.
pub open spec fn resumed_action_ok(s: TaskStatusView, a: TaskActionView) -> bool {
    &&& !(a is NewSecret)
    &&& !(a is ShaCommit)
    &&& (a matches TaskActionView::Commit { hs, .. } ==> s.step == 1 && hs == s.hs)
    &&& (a matches TaskActionView::Reveal { secret, .. } ==> s.step <= 2 && secret == s.secret)
    &&& (a is GetRandom ==> s.step <= 3)
}

proof fn lemma_resume_from(s0: TaskStatusView, m: TaskMachineView, es: Seq<TaskEventView>)
    requires
        task_inv(m),
        1 <= s0.step <= m.status.step,
        m.status.secret == s0.secret,
        m.status.hs == s0.hs,
    ensures
        forall|i: int|
            0 <= i < run_actions(m, es).len() ==> resumed_action_ok(
                s0,
                #[trigger] run_actions(m, es)[i],
            ),
    decreases es.len(),
{
    if es.len() > 0 {
        let n = task_next(m, es[0]).0;
        lemma_task_next_inv(m, es[0]);
        lemma_task_calls_match_step(m, es[0]);
        lemma_resume_from(s0, n, es.drop_first());
        assert forall|i: int| 0 <= i < run_actions(m, es).len() implies resumed_action_ok(
            s0,
            #[trigger] run_actions(m, es)[i],
        ) by {
            if i > 0 {
                assert(run_actions(m, es)[i] == run_actions(n, es.drop_first())[i - 1]);
            }
        }
    }
}

/// Crash recovery: a participation resumed from saved progress (step 1 on)
/// never repeats what that progress records, whatever events follow. It
/// chooses and hashes no new secret, commits only if no commit is recorded
/// and then with the stored commitment, reveals only if no reveal is
/// recorded and then with the stored secret, and reads the random number
/// only if it was not read.
pub proof fn lemma_task_resume_no_repeat(m: TaskMachineView, es: Seq<TaskEventView>)
    requires
        task_inv(m),
        m.status.step >= 1,
    ensures
        forall|i: int|
            0 <= i < run_actions(m, es).len() ==> resumed_action_ok(
                m.status,
                #[trigger] run_actions(m, es)[i],
            ),
{
    lemma_resume_from(m.status, m, es);
}

/// Each transaction sent is recorded: when the commit or the reveal goes
/// out with hash `h`, the status saved next records its step (2 for the
/// commit, 3 for the reveal) and `h` as the last transaction, and keeps the
/// campaign, the secret and the commitment.
pub proof fn lemma_task_records_sent_tx(m: TaskMachineView, h: H256)
    requires
        m.phase == TaskPhase::WantCommitTx || m.phase == TaskPhase::WantRevealTx,
    ensures
        task_next(m, TaskEventView::TxSent(Some(h))).1 matches TaskActionView::Save {
            status,
            ..
        } && status.tx_hash == h && status.step == (if m.phase == TaskPhase::WantCommitTx {
            2u8
        } else {
            3u8
        }) && status.campaign_id == m.status.campaign_id && status.secret == m.status.secret
            && status.hs == m.status.hs,
        task_next(m, TaskEventView::TxSent(Some(h))).0.status.tx_hash == h,
{
}

/// The receipt confirmed is that of the transaction just sent: once the
/// reveal goes out with hash `h` and its progress is saved, the first block
/// read from the target block on fetches the receipt of `h` (and likewise
/// the commit's receipt, fetched inside the reveal window, is the commit's).
pub proof fn lemma_task_confirms_sent_tx(m: TaskMachineView, h: H256, b: u64)
    requires
        task_inv(m),
        m.phase == TaskPhase::WantRevealTx || m.phase == TaskPhase::WantCommitTx,
        m.phase == TaskPhase::WantRevealTx ==> m.status.campaign_info.bnum@ <= b,
        m.phase == TaskPhase::WantCommitTx ==> in_window(
            m.status.campaign_info,
            Window::Reveal,
            b,
        ),
    ensures
        ({
            let es = seq![
                TaskEventView::TxSent(Some(h)),
                TaskEventView::Saved(Ok(())),
                TaskEventView::Block(Some(b)),
            ];
            &&& run_actions(m, es).len() == 3
            &&& run_actions(m, es)[1] == TaskActionView::ReadBlock { wait_first: false }
            &&& run_actions(m, es)[2] == TaskActionView::FetchReceipt(h)
        }),
{
    let es = seq![
        TaskEventView::TxSent(Some(h)),
        TaskEventView::Saved(Ok(())),
        TaskEventView::Block(Some(b)),
    ];
    let m1 = task_next(m, es[0]).0;
    let m2 = task_next(m1, es[1]).0;
    let m3 = task_next(m2, es[2]).0;
    assert(es.drop_first() == seq![es[1], es[2]]);
    assert(es.drop_first().drop_first() == seq![es[2]]);
    assert(es.drop_first().drop_first().drop_first() == Seq::<TaskEventView>::empty());
    assert(run_actions(m2, seq![es[2]]) == seq![task_next(m2, es[2]).1] + run_actions(
        m3,
        Seq::<TaskEventView>::empty(),
    ));
    assert(run_actions(m1, seq![es[1], es[2]]) == seq![task_next(m1, es[1]).1] + run_actions(
        m2,
        seq![es[2]],
    ));
    assert(run_actions(m, es) == seq![task_next(m, es[0]).1] + run_actions(m1, es.drop_first()));
}

} // verus!
