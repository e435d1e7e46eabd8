use randao::config::CampaignInfo;
use randao::main_loop::{LoopAction, LoopError, LoopEvent, LoopPhase, MainLoop};
use randao::uint::U256;

fn u(x: u64) -> U256 {
    U256::from_u64(x)
}

#[test]
fn fresh_campaigns_are_stored_then_started_within_capacity() {
    let info = CampaignInfo::zeroed();
    let mut m = MainLoop::new(vec![], false, 1);
    assert!(matches!(m.step(LoopEvent::Tick(false)), LoopAction::ReadCount));
    assert!(matches!(m.step(LoopEvent::Count(Some(u(0)))), LoopAction::Pause(5000)));
    assert!(matches!(m.step(LoopEvent::Tick(false)), LoopAction::ReadCount));
    assert!(matches!(m.step(LoopEvent::Count(Some(u(2)))), LoopAction::FetchInfo(0)));
    assert!(matches!(m.step(LoopEvent::Info(info)), LoopAction::Check(_)));
    assert!(matches!(m.step(LoopEvent::Checked(true)), LoopAction::Store(0)));
    assert!(matches!(
        m.step(LoopEvent::Stored),
        LoopAction::Spawn { id: 0, fresh: true, .. }
    ));
    assert!(matches!(m.step(LoopEvent::Spawned), LoopAction::ReapFinished));
    assert_eq!(m.running, 1);
    assert!(matches!(m.step(LoopEvent::Reaped(0)), LoopAction::Pause(0)));
    // campaign 1 is next; one worker runs and one is allowed: join it first
    assert!(matches!(m.step(LoopEvent::Tick(false)), LoopAction::ReadCount));
    assert!(matches!(m.step(LoopEvent::Count(Some(u(2)))), LoopAction::FetchInfo(1)));
    assert!(m.can_step(&LoopEvent::Info(info)));
    assert!(matches!(m.step(LoopEvent::Info(info)), LoopAction::JoinOne));
    assert!(matches!(m.step(LoopEvent::Joined), LoopAction::Pause(0)));
    assert_eq!(m.running, 0);
    // a campaign that fails screening is not started
    assert!(matches!(m.step(LoopEvent::Tick(false)), LoopAction::ReadCount));
    assert!(matches!(m.step(LoopEvent::Count(Some(u(3)))), LoopAction::FetchInfo(2)));
    assert!(matches!(m.step(LoopEvent::Info(info)), LoopAction::Check(_)));
    assert!(matches!(m.step(LoopEvent::Checked(false)), LoopAction::Pause(0)));
    // asked to stop: wait for every worker and end
    assert!(matches!(m.step(LoopEvent::Tick(true)), LoopAction::JoinAll));
    assert!(matches!(m.phase, LoopPhase::Stopped));
    assert!(matches!(m.step(LoopEvent::Tick(false)), LoopAction::Ignored));
}

#[test]
fn leftovers_are_resumed_first() {
    let info = CampaignInfo::zeroed();
    let mut m = MainLoop::new(vec![4, 7], false, 3);
    assert_eq!(m.watcher.campaign_num, u(8));
    m.step(LoopEvent::Tick(false));
    assert!(matches!(m.step(LoopEvent::Count(Some(u(3)))), LoopAction::FetchInfo(2)));
    m.step(LoopEvent::Info(info));
    assert!(matches!(
        m.step(LoopEvent::Checked(true)),
        LoopAction::Spawn { id: 7, fresh: false, .. }
    ));
    assert_eq!(m.watcher.pending, vec![4]);
}

#[test]
fn loop_failures_and_guards() {
    let info = CampaignInfo::zeroed();
    let mut m = MainLoop::new(vec![], false, 2);
    m.step(LoopEvent::Tick(false));
    assert!(matches!(
        m.step(LoopEvent::Count(None)),
        LoopAction::Fail(LoopError::GetNumCampaigns)
    ));
    // a limit of zero with no worker to join cannot make room
    let mut z = MainLoop::new(vec![], false, 0);
    z.step(LoopEvent::Tick(false));
    z.step(LoopEvent::Count(Some(u(1))));
    assert!(!z.can_step(&LoopEvent::Info(info)));
    // campaign mode only opens campaigns
    let mut c = MainLoop::new(vec![], true, 2);
    assert!(matches!(c.step(LoopEvent::Tick(false)), LoopAction::OpenCampaign));
    assert!(matches!(c.phase, LoopPhase::Idle));
}
