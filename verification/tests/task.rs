use randao::config::CampaignInfo;
use randao::task::{
    plan_start, window_computable, window_open, StartPlan, TaskAction, TaskError, TaskEvent,
    TaskMachine, TaskPhase, TaskStatus, Window,
};
use randao::types::H256;
use randao::uint::U256;

fn u(x: u64) -> U256 {
    U256::from_u64(x)
}

fn info() -> CampaignInfo {
    let mut i = CampaignInfo::zeroed();
    i.bnum = u(100);
    i.commit_balkline = u(20);
    i.commit_deadline = u(10);
    i.deposit = u(1000);
    i
}

fn hash(b: u8) -> H256 {
    H256 { bytes: [b; 32] }
}

#[test]
fn windows_of_a_campaign() {
    let i = info();
    assert!(window_computable(&i, Window::Commit));
    assert!(!window_open(&i, Window::Commit, 79));
    assert!(window_open(&i, Window::Commit, 80));
    assert!(window_open(&i, Window::Commit, 90));
    assert!(!window_open(&i, Window::Reveal, 90));
    assert!(window_open(&i, Window::Reveal, 91));
    assert!(window_open(&i, Window::Reveal, 99));
    assert!(!window_open(&i, Window::Reveal, 100));
    assert!(window_open(&i, Window::Bounty, 100));
    assert!(!window_open(&i, Window::Bounty, 99));
    let mut bad = info();
    bad.commit_balkline = u(101);
    assert!(!window_computable(&bad, Window::Commit));
    assert!(window_computable(&bad, Window::Reveal));
    assert!(window_computable(&bad, Window::Bounty));
}

#[test]
fn full_participation() {
    let mut m = TaskMachine::new(TaskStatus::new(12, info()));
    assert!(matches!(m.step(TaskEvent::Begin), TaskAction::NewSecret));
    match m.step(TaskEvent::Secret("42".to_string())) {
        TaskAction::ShaCommit(s) => assert_eq!(s, "42"),
        _ => panic!("expected sha commit"),
    }
    match m.step(TaskEvent::Commitment(Some(vec![1, 2, 3]))) {
        TaskAction::Save { status, inc_gauge } => {
            assert_eq!(status.step, 1);
            assert_eq!(status.hs, vec![1, 2, 3]);
            assert_eq!(status.secret, "42");
            assert!(!inc_gauge);
        }
        _ => panic!("expected save"),
    }
    assert!(matches!(m.step(TaskEvent::Saved(Ok(()))), TaskAction::ReadBlock { wait_first: false }));
    // too early to commit: wait for the next block
    assert!(matches!(m.step(TaskEvent::Block(Some(70))), TaskAction::ReadBlock { wait_first: true }));
    match m.step(TaskEvent::Block(Some(85))) {
        TaskAction::Commit { campaign_id, deposit, hs } => {
            assert_eq!(campaign_id, 12);
            assert_eq!(deposit, 1000);
            assert_eq!(hs, vec![1, 2, 3]);
        }
        _ => panic!("expected commit"),
    }
    match m.step(TaskEvent::TxSent(Some(hash(7)))) {
        TaskAction::Save { status, inc_gauge } => {
            assert_eq!(status.step, 2);
            assert_eq!(status.tx_hash.bytes, [7; 32]);
            assert!(inc_gauge);
        }
        _ => panic!("expected save"),
    }
    assert!(!m.counted);
    assert!(matches!(m.step(TaskEvent::Saved(Ok(()))), TaskAction::ReadBlock { wait_first: false }));
    assert!(m.counted);
    assert!(matches!(m.step(TaskEvent::Block(Some(90))), TaskAction::ReadBlock { wait_first: true }));
    match m.step(TaskEvent::Block(Some(95))) {
        TaskAction::FetchReceipt(h) => assert_eq!(h.bytes, [7; 32]),
        _ => panic!("expected receipt lookup"),
    }
    match m.step(TaskEvent::Receipt(true)) {
        TaskAction::Reveal { campaign_id, deposit, secret } => {
            assert_eq!((campaign_id, deposit), (12, 1000));
            assert_eq!(secret, "42");
        }
        _ => panic!("expected reveal"),
    }
    assert!(matches!(m.step(TaskEvent::TxSent(Some(hash(8)))), TaskAction::Save { inc_gauge: false, .. }));
    assert!(matches!(m.step(TaskEvent::Saved(Ok(()))), TaskAction::ReadBlock { wait_first: false }));
    assert!(matches!(m.step(TaskEvent::Block(Some(99))), TaskAction::ReadBlock { wait_first: true }));
    assert!(matches!(m.step(TaskEvent::Block(Some(100))), TaskAction::FetchReceipt(_)));
    assert!(matches!(m.step(TaskEvent::Receipt(true)), TaskAction::GetRandom(12)));
    match m.step(TaskEvent::Number(Some(u(555)))) {
        TaskAction::Save { status, inc_gauge } => {
            assert_eq!(status.step, 4);
            assert_eq!(status.randao_num, u(555));
            assert!(!inc_gauge);
        }
        _ => panic!("expected save"),
    }
    assert!(matches!(m.step(TaskEvent::Saved(Ok(()))), TaskAction::GetBounty(12)));
    assert!(matches!(m.step(TaskEvent::Number(Some(u(1500)))), TaskAction::Save { .. }));
    assert!(matches!(m.step(TaskEvent::Saved(Ok(()))), TaskAction::RemoveFile));
    match m.step(TaskEvent::Removed(Ok(()))) {
        TaskAction::Finish { outcome: Ok((id, r, b)), dec_gauge } => {
            assert_eq!((id, r, b), (12, u(555), u(1500)));
            assert!(dec_gauge);
        }
        _ => panic!("expected success"),
    }
    assert!(!m.counted);
    assert_eq!(m.phase, TaskPhase::Done);
    assert!(matches!(m.step(TaskEvent::Begin), TaskAction::Ignored));
}

#[test]
fn bounty_below_deposit_fails() {
    let mut s = TaskStatus::new(3, info());
    s.step = 4;
    let mut m = TaskMachine::new(s);
    assert!(matches!(m.step(TaskEvent::Begin), TaskAction::GetBounty(3)));
    assert!(matches!(m.step(TaskEvent::Number(Some(u(999)))), TaskAction::Save { .. }));
    assert!(matches!(m.step(TaskEvent::Saved(Ok(()))), TaskAction::RemoveFile));
    assert!(matches!(
        m.step(TaskEvent::Removed(Ok(()))),
        TaskAction::Finish { outcome: Err(TaskError::BountyBelowDeposit), dec_gauge: false }
    ));
}

#[test]
fn failures_end_the_participation() {
    let mut m = TaskMachine::new(TaskStatus::new(1, info()));
    m.step(TaskEvent::Begin);
    m.step(TaskEvent::Secret("1".to_string()));
    assert!(matches!(
        m.step(TaskEvent::Commitment(None)),
        TaskAction::Finish { outcome: Err(TaskError::ShaCommit), dec_gauge: false }
    ));

    let mut s = TaskStatus::new(1, info());
    s.step = 1;
    let mut m = TaskMachine::new(s);
    m.step(TaskEvent::Begin);
    assert!(matches!(
        m.step(TaskEvent::Block(None)),
        TaskAction::Finish { outcome: Err(TaskError::BlockNumber), .. }
    ));

    let mut s = TaskStatus::new(1, info());
    s.step = 7;
    let mut m = TaskMachine::new(s);
    assert!(matches!(
        m.step(TaskEvent::Begin),
        TaskAction::Finish { outcome: Err(TaskError::BadStep), .. }
    ));
    assert_eq!(TaskError::BadStep.message(), "task status step error!!!");
    assert_eq!(TaskError::BountyBelowDeposit.message(), "my_bounty less than deposit");
}

#[test]
fn unexpected_events_are_ignored() {
    let mut m = TaskMachine::new(TaskStatus::new(1, info()));
    assert!(matches!(m.step(TaskEvent::Saved(Ok(()))), TaskAction::Ignored));
    assert_eq!(m.phase, TaskPhase::Dispatch);
}

#[test]
fn start_plans() {
    assert_eq!(plan_start(true, true, false), StartPlan::Load);
    assert_eq!(plan_start(false, false, true), StartPlan::Create);
    assert_eq!(plan_start(true, true, true), StartPlan::InfoButFileExists);
    assert_eq!(plan_start(true, false, false), StartPlan::NotAFile);
    assert_eq!(plan_start(false, false, false), StartPlan::NoInfoNoFile);
    assert_eq!(
        StartPlan::NoInfoNoFile.message(),
        "campaign_ids json not exists, but call WorkThd::new_from_campaign_id() init!!!"
    );
}

#[test]
fn steps_that_cannot_be_computed_are_flagged() {
    let mut bad = info();
    bad.commit_balkline = u(101);
    let mut status = TaskStatus::new(3, bad);
    status.step = 1;
    let mut m = TaskMachine::new(status);
    assert!(m.can_step(&TaskEvent::Begin));
    assert!(matches!(m.step(TaskEvent::Begin), TaskAction::ReadBlock { wait_first: false }));
    assert!(!m.can_step(&TaskEvent::Block(Some(90))));
    assert!(m.can_step(&TaskEvent::Block(None)));

    let mut rich = info();
    rich.deposit = U256 { w0: 0, w1: 0, w2: 1, w3: 0 };
    let mut status = TaskStatus::new(4, rich);
    status.step = 1;
    let mut m = TaskMachine::new(status);
    m.step(TaskEvent::Begin);
    assert!(m.can_step(&TaskEvent::Block(Some(79))));
    assert!(!m.can_step(&TaskEvent::Block(Some(80))));
}

#[test]
fn resumed_after_commit_reveals_without_committing_again() {
    let mut s = TaskStatus::new(9, info());
    s.step = 2;
    s.secret = "7".to_string();
    s.tx_hash = hash(5);
    let mut m = TaskMachine::new(s);
    assert!(matches!(m.step(TaskEvent::Begin), TaskAction::ReadBlock { wait_first: false }));
    assert!(matches!(m.step(TaskEvent::Block(Some(85))), TaskAction::ReadBlock { wait_first: true }));
    match m.step(TaskEvent::Block(Some(95))) {
        TaskAction::FetchReceipt(h) => assert_eq!(h.bytes, [5u8; 32]),
        _ => panic!("expected the commit receipt to be fetched"),
    }
    match m.step(TaskEvent::Receipt(true)) {
        TaskAction::Reveal { campaign_id, deposit, secret } => {
            assert_eq!(campaign_id, 9);
            assert_eq!(deposit, 1000);
            assert_eq!(secret, "7");
        }
        _ => panic!("expected reveal"),
    }
}

#[test]
fn a_failed_reveal_gives_back_the_gauge() {
    let mut m = TaskMachine::new(TaskStatus::new(5, info()));
    m.step(TaskEvent::Begin);
    m.step(TaskEvent::Secret("9".to_string()));
    m.step(TaskEvent::Commitment(Some(vec![4])));
    m.step(TaskEvent::Saved(Ok(())));
    m.step(TaskEvent::Block(Some(85)));
    assert!(matches!(m.step(TaskEvent::TxSent(Some(hash(1)))), TaskAction::Save { inc_gauge: true, .. }));
    m.step(TaskEvent::Saved(Ok(())));
    m.step(TaskEvent::Block(Some(95)));
    assert!(matches!(m.step(TaskEvent::Receipt(true)), TaskAction::Reveal { .. }));
    assert!(matches!(
        m.step(TaskEvent::TxSent(None)),
        TaskAction::Finish { outcome: Err(TaskError::Reveal), dec_gauge: true }
    ));
    assert!(!m.counted);

    // resumed after the commit: never counted here, so nothing to give back
    let mut s = TaskStatus::new(6, info());
    s.step = 2;
    let mut m = TaskMachine::new(s);
    m.step(TaskEvent::Begin);
    m.step(TaskEvent::Block(Some(95)));
    m.step(TaskEvent::Receipt(true));
    assert!(matches!(
        m.step(TaskEvent::TxSent(None)),
        TaskAction::Finish { outcome: Err(TaskError::Reveal), dec_gauge: false }
    ));
}

#[test]
fn every_ending_of_a_counted_participation_gives_back_the_gauge() {
    let mut m = TaskMachine::new(TaskStatus::new(5, info()));
    m.step(TaskEvent::Begin);
    m.step(TaskEvent::Secret("9".to_string()));
    m.step(TaskEvent::Commitment(Some(vec![4])));
    m.step(TaskEvent::Saved(Ok(())));
    m.step(TaskEvent::Block(Some(85)));
    m.step(TaskEvent::TxSent(Some(hash(1))));
    m.step(TaskEvent::Saved(Ok(())));
    assert!(m.counted);
    m.step(TaskEvent::Block(Some(95)));
    assert!(matches!(
        m.step(TaskEvent::Receipt(false)),
        TaskAction::Finish { outcome: Err(TaskError::Receipt), dec_gauge: true }
    ));
    assert!(!m.counted);
}

#[test]
fn a_storage_failure_reports_the_file_system_error() {
    let mut m = TaskMachine::new(TaskStatus::new(5, info()));
    m.step(TaskEvent::Begin);
    m.step(TaskEvent::Secret("9".to_string()));
    m.step(TaskEvent::Commitment(Some(vec![4])));
    match m.step(TaskEvent::Saved(Err("No space left on device (os error 28)".to_string()))) {
        TaskAction::Finish { outcome: Err(e), dec_gauge } => {
            assert!(!dec_gauge);
            assert_eq!(e.message(), "No space left on device (os error 28)");
        }
        _ => panic!("expected the participation to end"),
    }
}
