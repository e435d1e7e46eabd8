//! Ethereum-style keys: the account address of a secp256k1 key (the last 20
//! bytes of the Keccak-256 hash of the uncompressed public key), its
//! checksummed text form, fresh keys from a random BIP-39 mnemonic, and the
//! participant's key from its hexadecimal text.
use vstd::prelude::*;
use crate::config::Config;
use crate::text::{
    all_ascii, all_hex, ascii_lower, chars_of, hex_digit_value, hex_lower, hex_value,
    lemma_hex_lower, push_hex, push_str, string_from_chars, trim, trim_chars,
};
use crate::types::Address;
use crate::uint::{push_decimal_u256, U256};
use rand::Rng;
use sha3::Digest;
use std::str::FromStr;

verus! {

// ---------------------------------------------------------------------------
// Names of what outside code computes, and the calls.
// ---------------------------------------------------------------------------

/// The Keccak-256 digest of `data`.
pub uninterp spec fn keccak256(data: Seq<u8>) -> Seq<u8>;

/// The 65-byte uncompressed public key (`0x04`, then X and Y) of a 32-byte
/// big-endian secret scalar, as `libsecp256k1` computes it; `None` when the
/// bytes are not a valid secret (wrong length, zero, or not below the group order).
pub uninterp spec fn libsecp256k1_public_key(secret: Seq<u8>) -> Option<Seq<u8>>;

/// The secret key that `secp256k1` reads from a hexadecimal text, and its
/// 65-byte uncompressed public key; `None` when the text is not 64
/// hexadecimal digits of a valid secret.
pub uninterp spec fn secp256k1_keys_from_str(s: Seq<char>) -> Option<(Seq<u8>, Seq<u8>)>;

/// The 32-byte secret key that BIP-32 derives from a seed along a
/// derivation path written as text (`m/...`); `None` when the path does not
/// parse, the seed length is not 16, 32 or 64 bytes, or derivation fails.
pub uninterp spec fn bip32_derive_secret(seed: Seq<u8>, path: Seq<char>) -> Option<Seq<u8>>;

/// The text without every leading `0x` (what `trim_start_matches("0x")` leaves).
pub open spec fn strip_0x(s: Seq<char>) -> Seq<char>
    decreases s.len(),
{
    if s.len() >= 2 && s[0] == '0' && s[1] == 'x' {
        strip_0x(s.skip(2))
    } else {
        s
    }
}

/// An ASCII letter in upper case; other characters unchanged.
pub open spec fn ascii_upper(c: char) -> char {
    if 'a' <= c && c <= 'z' {
        ((c as int) - 32) as char
    } else {
        c
    }
}

/// The bytes of an ASCII text.
pub open spec fn ascii_bytes(s: Seq<char>) -> Seq<u8> {
    s.map_values(|c: char| c as u8)
}

/// What the checksum works on: the text without its `0x`, in lower case.
pub open spec fn checksum_input(address: Seq<char>) -> Seq<char> {
    strip_0x(address).map_values(|c: char| ascii_lower(c))
}

/// The Keccak-256 digest of `data` as rust-crypto's `Sha3::keccak256`
/// computes it (the hash `eth_checksum::checksum` uses).
pub uninterp spec fn crypto_keccak256(data: Seq<u8>) -> Seq<u8>;

/// EIP-55 over a lower-case text `l` and the hexadecimal digits `h` of its
/// hash: `0x`, then `l` with each letter raised to upper case where the
/// digit of `h` at its position is above 7.
pub open spec fn eip55(l: Seq<char>, h: Seq<char>) -> Seq<char> {
    "0x"@ + Seq::new(
        l.len(),
        |i: int|
            if hex_digit_value(h[i]).unwrap_or(0) > 7 {
                ascii_upper(l[i])
            } else {
                l[i]
            },
    )
}

/// The EIP-55 mixed-case checksum form of an address text.
pub open spec fn eth_checksum(address: Seq<char>) -> Seq<char> {
    eip55(
        checksum_input(address),
        hex_lower(crypto_keccak256(ascii_bytes(checksum_input(address)))),
    )
}

/// The 32 bytes that 64 hexadecimal digits spell, two digits per byte.
pub open spec fn hex_bytes(s: Seq<char>) -> Seq<u8> {
    Seq::new(32, |i: int| hex_value(s.subrange(2 * i, 2 * i + 2)) as u8)
}

/// Keccak-256 (`sha3::Keccak256::digest`): a 32-byte digest named by `keccak256`.
#[verifier::external_body]
fn keccak256_digest(data: &[u8]) -> (r: [u8; 32])
    ensures
        r@ == keccak256(data@),
{
    let d = sha3::Keccak256::digest(data);
    let mut out = [0u8; 32];
    out.copy_from_slice(d.as_slice());
    out
}

/// `libsecp256k1::SecretKey::parse_slice`, then `PublicKey::from_secret_key`;
/// both keys serialized. Claims: the result is present exactly when the
/// secret parses, the serialized secret is the input itself (parsing rejects
/// out-of-range scalars rather than reducing them), and the public key is
/// the one `libsecp256k1_public_key` names.
#[verifier::external_body]
fn libsecp_key_pair(secret: &[u8]) -> (r: Option<([u8; 32], [u8; 65])>)
    ensures
        r is Some <==> libsecp256k1_public_key(secret@) is Some,
        r matches Some((s, p)) ==> s@ == secret@ && p@ == libsecp256k1_public_key(secret@)->0,
{
    let sk = libsecp256k1::SecretKey::parse_slice(secret).ok()?;
    let pk = libsecp256k1::PublicKey::from_secret_key(&sk);
    Some((sk.serialize(), pk.serialize()))
}

/// `secp256k1::SecretKey::from_str`, then `PublicKey::from_secret_key` in a
/// signing context, serialized uncompressed. Claims that the result is what
/// `secp256k1_keys_from_str` names, and that a key read is the one its text
/// spells: `from_str` accepts only 64 hexadecimal digits of either case and
/// decodes them two per byte (whether the bytes are a valid secret is left
/// to the name).
#[verifier::external_body]
fn secp_keys_from_str(s: &str) -> (r: Option<([u8; 32], [u8; 65])>)
    ensures
        r is Some <==> secp256k1_keys_from_str(s@) is Some,
        r matches Some((k, p)) ==> (k@, p@) == secp256k1_keys_from_str(s@)->0,
        r matches Some((k, p)) ==> s@.len() == 64 && all_hex(s@) && k@ == hex_bytes(s@),
{
    let sk = secp256k1::SecretKey::from_str(s).ok()?;
    let ctx = secp256k1::Secp256k1::signing_only();
    let pk = secp256k1::PublicKey::from_secret_key(&ctx, &sk);
    Some((sk.secret_bytes(), pk.serialize_uncompressed()))
}

/// `bip32::DerivationPath::from_str`, `XPrv::derive_from_path`, `to_bytes`:
/// the derived secret that `bip32_derive_secret` names.
#[verifier::external_body]
fn bip32_derive(seed: &[u8], path: &str) -> (r: Option<[u8; 32]>)
    ensures
        r is Some <==> bip32_derive_secret(seed@, path@) is Some,
        r matches Some(k) ==> k@ == bip32_derive_secret(seed@, path@)->0,
{
    let p = bip32::DerivationPath::from_str(path).ok()?;
    let x = bip32::XPrv::derive_from_path(seed, &p).ok()?;
    Some(x.to_bytes())
}

/// A fresh random 12-word English mnemonic (`bip0039::Mnemonic::generate`)
/// turned into its 64-byte seed with an empty passphrase (`to_seed`).
/// Nothing is claimed of the bytes: they come from the operating system's
/// random source.
#[verifier::external_body]
fn random_mnemonic_seed() -> (r: [u8; 64]) {
    bip0039::Mnemonic::<bip0039::English>::generate(bip0039::Count::Words12).to_seed("")
}

/// `eth_checksum::checksum`: EIP-55 as `eth_checksum` states it, with the
/// hash's digits from rust-crypto's Keccak-256 (named `crypto_keccak256`)
/// in lower-case hex. It
/// indexes the 64-digit hash by the byte positions of the (lower-cased,
/// `0x`-less) text, so the text is kept to ASCII and 64 characters.
#[verifier::external_body]
fn checksum(address: &str) -> (r: String)
    requires
        all_ascii(address@),
        address@.len() <= 64,
    ensures
        r@ == eip55(
            checksum_input(address@),
            hex_lower(crypto_keccak256(ascii_bytes(checksum_input(address@)))),
        ),
{
    eth_checksum::checksum(address)
}

/// `hex::encode`: two lower-case hexadecimal digits per byte.
#[verifier::external_body]
fn hex_encode(data: &[u8]) -> (r: String)
    ensures
        r@ == hex_lower(data@),
{
    hex::encode(data)
}

/// Four words from the thread's random generator (`rand::Rng::gen`).
/// Nothing is claimed of them.
#[verifier::external_body]
fn random_words() -> (r: [u64; 4]) {
    rand::thread_rng().gen::<[u64; 4]>()
}

// ---------------------------------------------------------------------------
// Verified key logic.
// ---------------------------------------------------------------------------

/// An account: checksummed address and hexadecimal private key.
#[derive(Debug, Clone, PartialEq, Eq)]
pub struct KeyPair {
    pub address: String,
    pub private: String,
}

/// The account address of an uncompressed public key: the last 20 bytes of
/// the Keccak-256 hash of its 64 coordinate bytes.
pub open spec fn address_of_public_key(pubkey: Seq<u8>) -> Seq<u8> {
    keccak256(pubkey.subrange(1, 65)).subrange(12, 32)
}

/// The checksummed text of an address: `0x` and its lower-case hex digits,
/// put through the checksum.
pub open spec fn address_text(addr: Seq<u8>) -> Seq<char> {
    eth_checksum("0x"@ + hex_lower(addr))
}

/// The shape of an account: a 42-character address and a private key of 64
/// hexadecimal digits.
pub open spec fn key_shape(k: KeyPair) -> bool {
    &&& k.private@.len() == 64
    &&& all_hex(k.private@)
    &&& k.address@.len() == 42
}

/// The checksummed form of `0x` and hexadecimal digits keeps their number.
proof fn lemma_checksum_len(h: Seq<char>)
    requires
        all_hex(h),
    ensures
        eth_checksum("0x"@ + h).len() == h.len() + 2,
{
    reveal_strlit("0x");
    let s = "0x"@ + h;
    assert(s.skip(2) =~= h);
    assert(s[0] == '0' && s[1] == 'x');
    assert(strip_0x(s) == strip_0x(h));
    if h.len() >= 2 {
        assert(hex_digit_value(h[1]) is Some);
    }
    assert(strip_0x(h) == h);
}

/// The account of a secret key: its checksummed address and its hex digits.
pub open spec fn key_pair_of(secret: Seq<u8>) -> Option<(Seq<char>, Seq<char>)> {
    match libsecp256k1_public_key(secret) {
        None => None,
        Some(p) => Some((address_text(address_of_public_key(p)), hex_lower(secret))),
    }
}

/// The BIP-44 path of the first Ethereum account.
pub open spec fn eth_account_path() -> Seq<char> {
    "m/44'/60'/0'/0/0"@
}

/// The address bytes of a 65-byte uncompressed public key.
pub fn address_from_public_key(pubkey: &[u8; 65]) -> (r: Address)
    ensures
        r.bytes@ == address_of_public_key(pubkey@),
{
    let mut coords = [0u8; 64];
    let mut i: usize = 0;
    while i < 64
        invariant
            i <= 64,
            forall|k: int| 0 <= k < i ==> coords@[k] == pubkey@[k + 1],
        decreases 64 - i,
    {
        coords[i] = pubkey[i + 1];
        i = i + 1;
    }
    assert(coords@ == pubkey@.subrange(1, 65));
    let h = keccak256_digest(&coords);
    let mut out = [0u8; 20];
    let mut j: usize = 0;
    while j < 20
        invariant
            j <= 20,
            h@ == keccak256(pubkey@.subrange(1, 65)),
            forall|k: int| 0 <= k < j ==> out@[k] == h@[k + 12],
        decreases 20 - j,
    {
        out[j] = h[j + 12];
        j = j + 1;
    }
    assert(out@ == h@.subrange(12, 32));
    Address { bytes: out }
}

/// The checksummed text of an address.
pub fn address_to_text(addr: &Address) -> (r: String)
    ensures
        r@ == address_text(addr.bytes@),
{
    let mut v: Vec<char> = Vec::new();
    push_str(&mut v, "0x");
    push_hex(&mut v, &addr.bytes);
    proof {
        reveal_strlit("0x");
        lemma_hex_lower(addr.bytes@);
        assert(v@ == "0x"@ + hex_lower(addr.bytes@));
        assert(all_ascii(v@)) by {
            assert forall|i: int| 0 <= i < v@.len() implies (#[trigger] v@[i] as int) < 128 by {
                if i >= 2 {
                    assert(v@[i] == hex_lower(addr.bytes@)[i - 2]);
                }
            }
        }
    }
    let s = string_from_chars(&v);
    checksum(s.as_str())
}

/// The account of a secret key, if the bytes are a valid secret.
pub fn key_pair_from_secret(secret: &[u8]) -> (r: Option<KeyPair>)
    ensures
        r is Some <==> key_pair_of(secret@) is Some,
        r matches Some(k) ==> (k.address@, k.private@) == key_pair_of(secret@)->0,
        r matches Some(k) ==> key_shape(k) && secret@.len() == 32,
{
    match libsecp_key_pair(secret) {
        None => None,
        Some((sk, pk)) => {
            let addr = address_from_public_key(&pk);
            let address = address_to_text(&addr);
            let private = hex_encode(&sk);
            proof {
                lemma_hex_lower(sk@);
                lemma_hex_lower(addr.bytes@);
                lemma_checksum_len(hex_lower(addr.bytes@));
            }
            Some(KeyPair { address, private })
        },
    }
}

/// The first Ethereum account of a BIP-32 seed: the secret derived along
/// `eth_account_path`, and its account.
pub open spec fn eth_key_of_seed(seed: Seq<u8>) -> Option<(Seq<char>, Seq<char>)> {
    match bip32_derive_secret(seed, eth_account_path()) {
        None => None,
        Some(secret) => key_pair_of(secret),
    }
}

/// Whether `r` is the account `eth_key_of_seed` gives for `seed`.
pub open spec fn is_key_of_seed(r: Option<KeyPair>, seed: Seq<u8>) -> bool {
    match r {
        None => eth_key_of_seed(seed) is None,
        Some(k) => eth_key_of_seed(seed) == Some((k.address@, k.private@)),
    }
}

/// The first Ethereum account of a seed; `None` when derivation or the
/// derived secret is rejected.
pub fn key_pair_from_seed(seed: &[u8]) -> (r: Option<KeyPair>)
    ensures
        is_key_of_seed(r, seed@),
        r matches Some(k) ==> key_shape(k),
{
    match bip32_derive(seed, "m/44'/60'/0'/0/0") {
        None => None,
        Some(secret) => key_pair_from_secret(&secret),
    }
}

/// A fresh account from a random 12-word mnemonic: the first Ethereum
/// account of its 64-byte seed (`None` in the negligible case that the seed
/// yields no valid key).
pub fn one_eth_key() -> (r: Option<KeyPair>)
    ensures
        exists|seed: Seq<u8>| seed.len() == 64 && #[trigger] is_key_of_seed(r, seed),
        r matches Some(k) ==> key_shape(k),
{
    let seed = random_mnemonic_seed();
    let r = key_pair_from_seed(&seed);
    assert(seed@.len() == 64 && is_key_of_seed(r, seed@));
    r
}

/// The secret bytes and account address of the key written in `sk_str`
/// (surrounding white space ignored), if it is one.
pub open spec fn keypair_from_str(sk_str: Seq<char>) -> Option<(Seq<u8>, Seq<u8>)> {
    match secp256k1_keys_from_str(trim(sk_str)) {
        None => None,
        Some((k, p)) => Some((k, address_of_public_key(p))),
    }
}

/// Whether the key written in `sk_str` (surrounding white space ignored) is
/// 64 hexadecimal digits, and the key read is the 32 bytes they spell.
pub open spec fn key_text_spells(sk_str: Seq<char>) -> bool {
    &&& trim(sk_str).len() == 64
    &&& all_hex(trim(sk_str))
    &&& keypair_from_str(sk_str) matches Some((k, _)) && k == hex_bytes(trim(sk_str))
}

/// The secret bytes and account address of the key written in `sk_str`, if it is one.
fn keypair_parts(sk_str: &str) -> (r: Option<([u8; 32], Address)>)
    ensures
        r is Some <==> keypair_from_str(sk_str@) is Some,
        r matches Some((k, a)) ==> (k@, a.bytes@) == keypair_from_str(sk_str@)->0,
        r is Some ==> key_text_spells(sk_str@),
{
    let cs = chars_of(sk_str);
    let t = trim_chars(&cs);
    let ts = string_from_chars(&t);
    match secp_keys_from_str(ts.as_str()) {
        None => None,
        Some((k, p)) => {
            let a = address_from_public_key(&p);
            Some((k, a))
        },
    }
}

/// The secret bytes and account address of the key written in `sk_str`
/// (surrounding white space ignored); `None` when it is not a valid key.
pub fn try_extract_keypair_from_str(sk_str: &str) -> (r: Option<([u8; 32], Address)>)
    ensures
        r is Some <==> keypair_from_str(sk_str@) is Some,
        r matches Some((k, a)) ==> (k@, a.bytes@) == keypair_from_str(sk_str@)->0,
        r is Some ==> key_text_spells(sk_str@),
{
    if keypair_parts(sk_str).is_some() {
        let owned = string_from_chars(&chars_of(sk_str));
        Some(extract_keypair_from_str(owned))
    } else {
        None
    }
}

/// The secret bytes and account address of the key written in `sk_str`.
pub fn extract_keypair_from_str(sk_str: String) -> (r: ([u8; 32], Address))
    requires
        keypair_from_str(sk_str@) is Some,
    ensures
        (r.0@, r.1.bytes@) == keypair_from_str(sk_str@)->0,
        key_text_spells(sk_str@),
{
    match keypair_parts(sk_str.as_str()) {
        Some(r) => r,
        None => ([0u8; 32], Address { bytes: [0u8; 20] }),
    }
}

/// The participant's secret bytes and account address, from the configuration.
pub fn extract_keypair_from_config(config: &Config) -> (r: ([u8; 32], Address))
    requires
        keypair_from_str(config.chain.participant@) is Some,
    ensures
        (r.0@, r.1.bytes@) == keypair_from_str(config.chain.participant@)->0,
        key_text_spells(config.chain.participant@),
{
    extract_keypair_from_str(config.chain.participant.clone())
}

/// The participant's secret bytes and account address, if the configured
/// key is valid.
pub fn try_extract_keypair_from_config(config: &Config) -> (r: Option<([u8; 32], Address)>)
    ensures
        r is Some <==> keypair_from_str(config.chain.participant@) is Some,
        r matches Some((k, a)) ==> (k@, a.bytes@) == keypair_from_str(config.chain.participant@)->0,
        r is Some ==> key_text_spells(config.chain.participant@),
{
    if keypair_parts(config.chain.participant.as_str()).is_some() {
        Some(extract_keypair_from_config(config))
    } else {
        None
    }
}

/// A fresh random secret for a campaign: a 256-bit number from the thread's
/// random generator, written in decimal.
pub fn fresh_secret() -> (r: String)
    ensures
        exists|n: nat| n < crate::uint::base3() * crate::uint::base1() && r@ == crate::text::decimal(n),
{
    let w = random_words();
    let x = U256 { w0: w[0], w1: w[1], w2: w[2], w3: w[3] };
    let mut v: Vec<char> = Vec::new();
    push_decimal_u256(&mut v, &x);
    proof {
        crate::uint::lemma_u256_bound(x);
        assert(v@ == crate::text::decimal(x@));
    }
    string_from_chars(&v)
}

} // verus!
