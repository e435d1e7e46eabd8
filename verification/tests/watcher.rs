use randao::campaign::{
    check_campaign_info_terms, screen_campaign, screening_computable, terms_computable,
};
use randao::config::{CampaignInfo, Chain, ChainOpts, Config, ConfigKey};
use randao::retry::{wait_blocks_step, BlockWait, ReceiptStep, ReceiptWait, Retry};
use randao::uint::U256;
use randao::watcher::{at_capacity, chain_id_matches, default_new_campaign, Poll, Watcher};

fn u(x: u64) -> U256 {
    U256::from_u64(x)
}

#[test]
fn watcher_resumes_after_largest_id() {
    let w = Watcher::new(vec![3, 9, 5]);
    assert_eq!(w.campaign_num, u(10));
    let w = Watcher::new(vec![]);
    assert_eq!(w.campaign_num, u(0));
}

#[test]
fn watcher_examines_every_new_campaign() {
    let mut w = Watcher::new(vec![]);
    assert_eq!(w.on_count(&u(0)), Poll::Wait);
    // three campaigns were created: each is examined in turn
    assert_eq!(w.on_count(&u(3)), Poll::Examine(0));
    assert_eq!(w.on_count(&u(3)), Poll::Examine(1));
    assert_eq!(w.on_count(&u(3)), Poll::Examine(2));
    assert_eq!(w.campaign_num, u(3));
    assert_eq!(w.on_count(&u(3)), Poll::Wait);
    assert_eq!(w.on_count(&u(4)), Poll::Examine(3));
    assert_eq!(w.claim(3), (3, true));
    let mut top = Watcher::new(vec![u128::MAX - 1]);
    assert!(top.claim(0) == (u128::MAX - 1, false));
    assert_eq!(top.campaign_num, U256 { w0: u64::MAX, w1: u64::MAX, w2: 0, w3: 0 });
    assert_eq!(top.on_count(&U256 { w0: 0, w1: 0, w2: 1, w3: 0 }), Poll::Examine(u128::MAX));
    assert_eq!(top.campaign_num, U256 { w0: 0, w1: 0, w2: 1, w3: 0 });
}

#[test]
fn watcher_hands_out_leftovers_first() {
    let mut w = Watcher::new(vec![1, 2]);
    assert_eq!(w.on_count(&u(2)), Poll::Examine(1));
    assert_eq!(w.campaign_num, u(3));
    assert_eq!(w.claim(1), (2, false));
    assert_eq!(w.claim(1), (1, false));
    assert_eq!(w.claim(5), (5, true));
}

#[test]
fn capacity_and_chain_id() {
    assert_eq!(at_capacity(2, 1), Some(false));
    assert_eq!(at_capacity(2, 2), Some(true));
    assert_eq!(at_capacity(-1, 0), Some(true));
    assert_eq!(at_capacity(2, 1usize << 40), None);
    assert!(chain_id_matches(&u(2153), "2153"));
    assert!(!chain_id_matches(&u(2153), "0x869"));
    assert!(chain_id_matches(&u(0), "0"));
}

#[test]
fn own_campaign_terms() {
    let d = default_new_campaign(100);
    assert_eq!(d.bnum, u(120));
    assert_eq!(d.commit_balkline, u(16));
    assert_eq!(d.commit_deadline, u(8));
    assert_eq!(d.deposit, U256::from_u128(1_000_000_000_000_000_000));
}

fn config(reserve: &str, window: i32, delay: i32) -> Config {
    Config {
        chain: Chain {
            name: "anvil".into(),
            chain_id: "2153".into(),
            endpoint: "http://localhost:8545".into(),
            participant: String::new(),
            opts: ChainOpts {
                randao: String::new(),
                gas_limit: String::new(),
                max_gas_price: String::new(),
                min_gas_reserve: reserve.into(),
                max_deposit: 10,
                min_rate_of_return_bits: 0,
                min_reveal_window: window,
                max_reveal_delay: delay,
                max_campaigns: 2,
                start_block: 0,
            },
        },
        http_listen: String::new(),
        prometheus_listen: String::new(),
        root_secret: String::new(),
        secret_key: ConfigKey {
            founder_secret: String::new(),
            follower_secret: String::new(),
            consumer_secret: String::new(),
            committer_secret: String::new(),
        },
    }
}

#[test]
fn campaign_screening() {
    let mut i = CampaignInfo::zeroed();
    i.bnum = u(200);
    i.commit_balkline = u(50);
    i.commit_deadline = u(20);
    i.deposit = u(100);
    i.bountypot = u(1000);
    i.commit_num = u(3);
    let c = config("0x64", 10, 5);
    // a balance of 99 is below the reserve 0x64 = 100
    assert!(screen_campaign(&i, &c, &u(99)).is_none());
    // a balance equal to the reserve is enough
    let q = screen_campaign(&i, &c, &u(100)).unwrap();
    // the rate is 1000 / 100 / (3 + 1) = 2.5, handed over as its figures
    assert_eq!((q.bountypot, q.deposit, q.commit_num), (u(1000), 100, u(3)));
    let mut z = i;
    z.deposit = u(0);
    assert!(screen_campaign(&z, &c, &u(101)).is_none());
    assert!(check_campaign_info_terms(&i, &c, 149));
    assert!(!check_campaign_info_terms(&i, &c, 150));
    assert!(!check_campaign_info_terms(&i, &config("0", 20, 5), 100));
    assert!(!check_campaign_info_terms(&i, &config("0", 10, 10), 100));
}

#[test]
fn screening_inputs_that_cannot_be_computed() {
    let mut i = CampaignInfo::zeroed();
    i.bnum = u(200);
    i.commit_balkline = u(50);
    i.deposit = u(3);
    i.commit_num = u(3);
    let c = config("0x64", 10, 5);
    // the reserve is not hexadecimal
    assert!(!screening_computable(&i, &config("xyz", 10, 5), &u(101)));
    // the balance is below the reserve: the deposit is not read
    let mut big = i;
    big.deposit = U256 { w0: 0, w1: 0, w2: 1, w3: 0 };
    assert!(screening_computable(&big, &c, &u(99)));
    // otherwise the deposit must fit in 128 bits
    assert!(!screening_computable(&big, &c, &u(100)));
    // a deposit smaller than the number of shares is fine: the rate is a fraction
    assert!(screening_computable(&i, &c, &u(101)));
    i.deposit = u(0);
    assert!(screening_computable(&i, &c, &u(101)));
    // a negative reveal window is only converted once the commit start is ahead
    assert!(terms_computable(&i, &config("0", -1, 5), 150));
    assert!(!terms_computable(&i, &config("0", -1, 5), 149));
    i.commit_balkline = u(201);
    assert!(!terms_computable(&i, &c, 0));
}

#[test]
fn retries_and_waits() {
    let mut r = Retry::new(Some(3));
    assert!(!r.failed());
    assert!(!r.failed());
    assert!(r.failed());
    assert_eq!(r.attempt, 3);
    let mut r = Retry::new(Some(0));
    assert!(r.failed());
    let mut r = Retry::new(None);
    assert!(!r.failed());
    assert_eq!(r.attempt, 2);

    let mut w = ReceiptWait::new(3);
    assert_eq!(w.step(false), ReceiptStep::Again);
    assert_eq!(w.step(true), ReceiptStep::Found(2));
    let mut w = ReceiptWait::new(2);
    assert_eq!(w.step(false), ReceiptStep::Again);
    assert_eq!(w.step(false), ReceiptStep::GiveUp);

    assert_eq!(wait_blocks_step(5, None), BlockWait::Stop);
    assert_eq!(wait_blocks_step(5, Some(5)), BlockWait::SleepThenPoll);
    assert_eq!(wait_blocks_step(5, Some(6)), BlockWait::SleepThenStop);
}
