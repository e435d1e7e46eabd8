use randao::keys::{
    address_from_public_key, address_to_text, fresh_secret, key_pair_from_secret, key_pair_from_seed,
    one_eth_key,
    try_extract_keypair_from_str,
};
use randao::types::Address;

const SECRET: &str = "4c0883a69102937d6231471b5dbb6204fe5129617082792ae468d01a3f362318";
const ADDRESS: &str = "0x2c7536E3605D9C16a7a3D7b1898e529396a65c23";

fn secret_bytes() -> Vec<u8> {
    (0..32).map(|i| u8::from_str_radix(&SECRET[2 * i..2 * i + 2], 16).unwrap()).collect()
}

#[test]
fn known_key_pair() {
    let kp = key_pair_from_secret(&secret_bytes()).unwrap();
    assert_eq!(kp.address, ADDRESS);
    assert_eq!(kp.private, SECRET);
}

#[test]
fn invalid_secrets_are_rejected() {
    assert!(key_pair_from_secret(&[0u8; 32]).is_none());
    assert!(key_pair_from_secret(&[1u8; 31]).is_none());
    assert!(key_pair_from_secret(&[0xffu8; 32]).is_none());
}

#[test]
fn participant_key_from_text() {
    let (sk, addr) = try_extract_keypair_from_str(&format!("  {}\n", SECRET)).unwrap();
    assert_eq!(sk.to_vec(), secret_bytes());
    assert_eq!(address_to_text(&addr), ADDRESS);
    assert!(try_extract_keypair_from_str("not a key").is_none());
    let owned = randao::keys::extract_keypair_from_str(SECRET.to_string());
    assert_eq!(owned.1.bytes, addr.bytes);
}

#[test]
fn checksum_of_known_address() {
    let mut bytes = [0u8; 20];
    let hex = "e0fc04fa2d34a66b779fd5cee748268032a146c0";
    for i in 0..20 {
        bytes[i] = u8::from_str_radix(&hex[2 * i..2 * i + 2], 16).unwrap();
    }
    assert_eq!(
        address_to_text(&Address { bytes }),
        "0xe0FC04FA2d34a66B779fd5CEe748268032a146c0"
    );
}

#[test]
fn address_is_tail_of_hash() {
    let mut pubkey = [0u8; 65];
    pubkey[0] = 4;
    let a = address_from_public_key(&pubkey);
    let b = {
        pubkey[0] = 9; // the prefix byte does not take part
        address_from_public_key(&pubkey)
    };
    assert_eq!(a.bytes, b.bytes);
    pubkey[64] = 1;
    assert_ne!(address_from_public_key(&pubkey).bytes, a.bytes);
}

#[test]
fn fresh_keys_and_secrets() {
    let kp = one_eth_key().unwrap();
    assert_eq!(kp.address.len(), 42);
    assert!(kp.address.starts_with("0x"));
    assert_eq!(kp.private.len(), 64);
    let s = fresh_secret();
    assert!(!s.is_empty());
    assert!(s.chars().all(|c| c.is_ascii_digit()));
    assert!(s.len() <= 78);
}

#[test]
fn first_account_of_a_known_mnemonic() {
    let phrase = "abandon abandon abandon abandon abandon abandon abandon abandon abandon abandon abandon about";
    let mnemonic = bip0039::Mnemonic::<bip0039::English>::from_phrase(phrase).unwrap();
    let seed = mnemonic.to_seed("");
    let kp = key_pair_from_seed(&seed).unwrap();
    assert_eq!(kp.address, "0x9858EfFD232B4033E47d90003D41EC34EcaEda94");
    assert_eq!(kp.private, "1ab42cc412b618bdea3a599e3c9bae199ebf030895b039e9db1e30dafb12b727");
}
