use randao::config::{AbiToken, AbiValue, CampaignInfo, TokenError};
use randao::uint::U256;

fn u(x: u64) -> U256 {
    U256::from_u64(x)
}

#[test]
fn u256_compare_and_subtract() {
    let a = U256::from_u128(1u128 << 100);
    let b = u(5);
    assert!(b.lt(&a));
    assert!(!a.lt(&b));
    assert!(a.le(&a));
    let d = a.sub(&b);
    assert_eq!(d, U256::from_u128((1u128 << 100) - 5));
    let big = U256 { w0: 0, w1: 0, w2: 0, w3: 1 };
    let one = u(1);
    assert_eq!(big.sub(&one), U256 { w0: u64::MAX, w1: u64::MAX, w2: u64::MAX, w3: 0 });
    assert!(!big.fits_u128());
    assert_eq!(U256::from_u128(u128::MAX).as_u128(), u128::MAX);
    assert!(U256::zero().is_zero());
}

#[test]
fn u256_division_by_ten() {
    let (q, r) = U256::from_u128(12345).div_rem_10();
    assert_eq!(q, u(1234));
    assert_eq!(r, 5);
    let max = U256 { w0: u64::MAX, w1: u64::MAX, w2: u64::MAX, w3: u64::MAX };
    let (_, r) = max.div_rem_10();
    assert_eq!(r, 5);
}

#[test]
fn u256_from_hex_text() {
    assert_eq!(U256::from_hex_str("0x10"), Some(u(16)));
    assert_eq!(U256::from_hex_str("ff"), Some(u(255)));
    assert_eq!(U256::from_hex_str("0xABCdef"), Some(u(0xabcdef)));
    assert_eq!(U256::from_hex_str(""), Some(u(0)));
    assert_eq!(U256::from_hex_str("0x"), Some(u(0)));
    assert_eq!(U256::from_hex_str("0x0x1"), None);
    assert_eq!(U256::from_hex_str("12g"), None);
    let max = "f".repeat(64);
    assert_eq!(
        U256::from_hex_str(&max),
        Some(U256 { w0: u64::MAX, w1: u64::MAX, w2: u64::MAX, w3: u64::MAX })
    );
    assert_eq!(U256::from_hex_str(&"1".repeat(65)), None);
    assert_eq!(
        U256::from_hex_str("0x1000000000000000000000000000000000000000000000000"),
        Some(U256 { w0: 0, w1: 0, w2: 0, w3: 1 })
    );
}

fn record(vals: Vec<AbiValue>) -> Vec<AbiToken> {
    vec![AbiToken::Tuple(vals)]
}

fn nine() -> Vec<AbiValue> {
    vec![
        AbiValue::Uint(u(100)),
        AbiValue::Uint(u(10)),
        AbiValue::Uint(u(20)),
        AbiValue::Uint(u(5)),
        AbiValue::Uint(u(0)),
        AbiValue::Bool(true),
        AbiValue::Uint(u(7)),
        AbiValue::Other,
        AbiValue::Uint(u(2)),
    ]
}

#[test]
fn campaign_record_from_tokens() {
    let info = CampaignInfo::from_tokens(&record(nine())).unwrap();
    assert_eq!(info.bnum, u(100));
    assert_eq!(info.deposit, u(10));
    assert_eq!(info.commit_balkline, u(20));
    assert_eq!(info.commit_deadline, u(5));
    assert_eq!(info.random, u(0));
    assert!(info.settled);
    assert_eq!(info.bountypot, u(7));
    assert_eq!(info.commit_num, u(0));
    assert_eq!(info.reveals_num, u(2));
    let info = CampaignInfo::from_tokens(&vec![AbiToken::Array(nine())]).unwrap();
    assert_eq!(info.bnum, u(100));
}

#[test]
fn campaign_record_errors() {
    assert_eq!(CampaignInfo::from_tokens(&vec![]).unwrap_err(), TokenError::NotSingle(0));
    assert_eq!(
        CampaignInfo::from_tokens(&vec![AbiToken::Tuple(nine()), AbiToken::Tuple(nine())]).unwrap_err(),
        TokenError::NotSingle(2)
    );
    assert_eq!(
        CampaignInfo::from_tokens(&vec![AbiToken::Value(AbiValue::Bool(true))]).unwrap_err(),
        TokenError::NotList
    );
    assert_eq!(
        CampaignInfo::from_tokens(&vec![AbiToken::FixedArray(nine())]).unwrap_err(),
        TokenError::NotList
    );
    let mut eight = nine();
    eight.pop();
    assert_eq!(CampaignInfo::from_tokens(&record(eight)).unwrap_err(), TokenError::WrongLength(8));
}

#[test]
fn campaign_fields_kinds() {
    assert!(randao::config::campaign_fields_well_typed(&nine()));
    let mut bad = nine();
    bad[5] = AbiValue::Uint(u(1));
    assert!(!randao::config::campaign_fields_well_typed(&bad));
    let mut bad = nine();
    bad[0] = AbiValue::Other;
    assert!(!randao::config::campaign_fields_well_typed(&bad));
}
