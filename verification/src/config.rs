//! Campaign records as the contract returns them, their decoding from ABI
//! tokens, and the service configuration.
use vstd::prelude::*;
use crate::uint::{U256, lemma_u256_lex};
use crate::text::{all_hex, chars_of, hex_digit_value_exec, hex_value, starts_with};

verus! {

/// A campaign as `getCampaign` reports it.
#[derive(Debug, Clone, Copy)]
pub struct CampaignInfo {
    /// Target block: the random number is known from this height on.
    pub bnum: U256,
    /// Deposit each committer pays.
    pub deposit: U256,
    /// Commits open this many blocks before `bnum`.
    pub commit_balkline: U256,
    /// Commits close this many blocks before `bnum`.
    pub commit_deadline: U256,
    pub random: U256,
    pub settled: bool,
    pub bountypot: U256,
    pub commit_num: U256,
    pub reveals_num: U256,
}

impl CampaignInfo {
    /// The all-zero record.
    pub fn zeroed() -> (r: CampaignInfo)
        ensures
            r.bnum@ == 0 && r.deposit@ == 0 && r.commit_balkline@ == 0 && r.commit_deadline@ == 0
                && r.random@ == 0 && !r.settled && r.bountypot@ == 0 && r.commit_num@ == 0
                && r.reveals_num@ == 0,
    {
        CampaignInfo {
            bnum: U256::zero(),
            deposit: U256::zero(),
            commit_balkline: U256::zero(),
            commit_deadline: U256::zero(),
            random: U256::zero(),
            settled: false,
            bountypot: U256::zero(),
            commit_num: U256::zero(),
            reveals_num: U256::zero(),
        }
    }
}

/// A single ABI value, as far as a campaign record is read.
#[derive(Debug, Clone, Copy)]
pub enum AbiValue {
    Uint(U256),
    Bool(bool),
    /// Any other kind of value (address, bytes, string, signed, nested).
    Other,
}

/// A top-level ABI token: a tuple or array of values, or a single value.
#[derive(Debug, Clone)]
pub enum AbiToken {
    Tuple(Vec<AbiValue>),
    Array(Vec<AbiValue>),
    FixedArray(Vec<AbiValue>),
    Value(AbiValue),
}

/// Why a token list is not a campaign record.
#[derive(Debug, Clone, Copy, PartialEq, Eq, Structural)]
pub enum TokenError {
    /// The record must be one token; this many were given.
    NotSingle(usize),
    /// The single token is neither a tuple nor an array.
    NotList,
    /// The record must hold nine fields; this many were given.
    WrongLength(usize),
}

/// The numeric value of an ABI value, or the given default when it is not a uint.
pub open spec fn uint_or(v: AbiValue, d: U256) -> U256 {
    match v {
        AbiValue::Uint(u) => u,
        _ => d,
    }
}

/// Whether nine fields have the kinds that decoding does not give up on:
/// the first five unsigned integers, the sixth a boolean.
pub open spec fn fields_well_typed(t: Seq<AbiValue>) -> bool {
    t.len() == 9 ==> {
        &&& forall|i: int| 0 <= i < 5 ==> #[trigger] t[i] is Uint
        &&& t[5] is Bool
    }
}

/// The record that nine fields denote; the last three count as zero when they
/// are not unsigned integers.
pub open spec fn record_of(t: Seq<AbiValue>) -> CampaignInfo {
    CampaignInfo {
        bnum: t[0]->Uint_0,
        deposit: t[1]->Uint_0,
        commit_balkline: t[2]->Uint_0,
        commit_deadline: t[3]->Uint_0,
        random: t[4]->Uint_0,
        settled: t[5]->Bool_0,
        bountypot: uint_or(t[6], U256 { w0: 0, w1: 0, w2: 0, w3: 0 }),
        commit_num: uint_or(t[7], U256 { w0: 0, w1: 0, w2: 0, w3: 0 }),
        reveals_num: uint_or(t[8], U256 { w0: 0, w1: 0, w2: 0, w3: 0 }),
    }
}

/// The elements of a list token.
pub open spec fn list_items(t: AbiToken) -> Option<Seq<AbiValue>> {
    match t {
        AbiToken::Tuple(v) => Some(v@),
        AbiToken::Array(v) => Some(v@),
        _ => None,
    }
}

/// What decoding nine fields gives: the record they denote, or the count
/// when there are not nine.
pub open spec fn token_result(items: Seq<AbiValue>) -> core::result::Result<CampaignInfo, TokenError> {
    if items.len() != 9 {
        Err(TokenError::WrongLength(items.len() as usize))
    } else {
        Ok(record_of(items))
    }
}

/// What decoding a `getCampaign` reply gives: it must be one token, a tuple
/// or an array, whose items are then decoded.
pub open spec fn tokens_result(tokens: Seq<AbiToken>) -> core::result::Result<
    CampaignInfo,
    TokenError,
> {
    if tokens.len() != 1 {
        Err(TokenError::NotSingle(tokens.len() as usize))
    } else {
        match list_items(tokens[0]) {
            None => Err(TokenError::NotList),
            Some(items) => token_result(items),
        }
    }
}

/// Whether `c` holds, field by field, the values at the positions of `t`:
/// the first five unsigned integers and the sixth boolean as they are, and
/// each of the last three as given when it is an unsigned integer, else zero.
pub open spec fn fields_match(t: Seq<AbiValue>, c: CampaignInfo) -> bool {
    &&& t[0] == AbiValue::Uint(c.bnum)
    &&& t[1] == AbiValue::Uint(c.deposit)
    &&& t[2] == AbiValue::Uint(c.commit_balkline)
    &&& t[3] == AbiValue::Uint(c.commit_deadline)
    &&& t[4] == AbiValue::Uint(c.random)
    &&& t[5] == AbiValue::Bool(c.settled)
    &&& (t[6] is Uint ==> t[6] == AbiValue::Uint(c.bountypot)) && (!(t[6] is Uint)
        ==> c.bountypot@ == 0)
    &&& (t[7] is Uint ==> t[7] == AbiValue::Uint(c.commit_num)) && (!(t[7] is Uint)
        ==> c.commit_num@ == 0)
    &&& (t[8] is Uint ==> t[8] == AbiValue::Uint(c.reveals_num)) && (!(t[8] is Uint)
        ==> c.reveals_num@ == 0)
}

/// Nine well-typed fields decode into the record that holds each of them at
/// its own position; any other number of fields is refused with that number.
pub proof fn lemma_record_fields(t: Seq<AbiValue>)
    requires
        fields_well_typed(t),
    ensures
        t.len() == 9 ==> (token_result(t) matches Ok(c) && fields_match(t, c)),
        t.len() != 9 ==> token_result(t) == Err::<CampaignInfo, TokenError>(
            TokenError::WrongLength(t.len() as usize),
        ),
{
    if t.len() == 9 {
        assert(t[0] is Uint && t[1] is Uint && t[2] is Uint && t[3] is Uint && t[4] is Uint);
    }
}

/// Decoding a reply fails unless it is a single tuple or array (`list_items`
/// gives the items of exactly those), and a single tuple or array decodes
/// exactly as its items do.
pub proof fn lemma_tokens_dispatch(tokens: Seq<AbiToken>)
    ensures
        (tokens.len() != 1 || list_items(tokens[0]) is None) ==> tokens_result(tokens) is Err,
        tokens.len() == 1 ==> (list_items(tokens[0]) matches Some(items) ==> tokens_result(tokens)
            == token_result(items)),
{
}

/// Whether a token list can be decoded without giving up on a field's kind.
pub open spec fn tokens_well_typed(tokens: Seq<AbiToken>) -> bool {
    tokens.len() == 1 ==> match list_items(tokens[0]) {
        Some(items) => fields_well_typed(items),
        None => true,
    }
}

fn uint_or_zero(v: &AbiValue) -> (r: U256)
    ensures
        r == uint_or(*v, U256 { w0: 0, w1: 0, w2: 0, w3: 0 }),
{
    match v {
        AbiValue::Uint(u) => *u,
        _ => U256::zero(),
    }
}

/// Whether nine fields have the kinds that decoding needs.
pub fn campaign_fields_well_typed(tokens: &Vec<AbiValue>) -> (r: bool)
    ensures
        r == fields_well_typed(tokens@),
{
    if tokens.len() != 9 {
        return true;
    }
    let mut i: usize = 0;
    while i < 5
        invariant
            tokens.len() == 9,
            i <= 5,
            forall|k: int| 0 <= k < i ==> #[trigger] tokens@[k] is Uint,
        decreases 5 - i,
    {
        match tokens[i] {
            AbiValue::Uint(_) => {},
            _ => {
                return false;
            },
        }
        i = i + 1;
    }
    match tokens[5] {
        AbiValue::Bool(_) => true,
        _ => false,
    }
}

impl CampaignInfo {
    /// Decodes the nine fields of a campaign record.
    pub fn from_token(tokens: &Vec<AbiValue>) -> (r: core::result::Result<CampaignInfo, TokenError>)
        requires
            fields_well_typed(tokens@),
        ensures
            r == token_result(tokens@),
            r matches Ok(c) ==> (tokens@.len() == 9 && fields_match(tokens@, c)),
    {
        if tokens.len() != 9 {
            return Err(TokenError::WrongLength(tokens.len()));
        }
        assert(tokens@[0] is Uint && tokens@[1] is Uint && tokens@[2] is Uint && tokens@[3] is Uint
            && tokens@[4] is Uint);
        let bnum = match tokens[0] {
            AbiValue::Uint(u) => u,
            _ => U256::zero(),
        };
        let deposit = match tokens[1] {
            AbiValue::Uint(u) => u,
            _ => U256::zero(),
        };
        let commit_balkline = match tokens[2] {
            AbiValue::Uint(u) => u,
            _ => U256::zero(),
        };
        let commit_deadline = match tokens[3] {
            AbiValue::Uint(u) => u,
            _ => U256::zero(),
        };
        let random = match tokens[4] {
            AbiValue::Uint(u) => u,
            _ => U256::zero(),
        };
        let settled = match tokens[5] {
            AbiValue::Bool(b) => b,
            _ => false,
        };
        Ok(
            CampaignInfo {
                bnum,
                deposit,
                commit_balkline,
                commit_deadline,
                random,
                settled,
                bountypot: uint_or_zero(&tokens[6]),
                commit_num: uint_or_zero(&tokens[7]),
                reveals_num: uint_or_zero(&tokens[8]),
            },
        )
    }

    /// Decodes a campaign record from the tokens of a `getCampaign` reply:
    /// exactly one token, a tuple or an array of the nine fields.
    pub fn from_tokens(tokens: &Vec<AbiToken>) -> (r: core::result::Result<CampaignInfo, TokenError>)
        requires
            tokens_well_typed(tokens@),
        ensures
            r == tokens_result(tokens@),
            r matches Ok(c) ==> (tokens@.len() == 1 && (list_items(tokens@[0]) matches Some(items)
                && items.len() == 9 && fields_match(items, c))),
    {
        if tokens.len() != 1 {
            return Err(TokenError::NotSingle(tokens.len()));
        }
        match &tokens[0] {
            AbiToken::Tuple(items) => CampaignInfo::from_token(items),
            AbiToken::Array(items) => CampaignInfo::from_token(items),
            _ => Err(TokenError::NotList),
        }
    }
}

/// Keys of the four campaign roles.
#[derive(Debug, Clone)]
pub struct ConfigKey {
    pub founder_secret: String,
    pub follower_secret: String,
    pub consumer_secret: String,
    pub committer_secret: String,
}

/// Limits on the campaigns the participant joins.
#[derive(Debug, Clone)]
pub struct ChainOpts {
    /// Address of the randao contract.
    pub randao: String,
    pub gas_limit: String,
    pub max_gas_price: String,
    /// Balance (hexadecimal wei) the participant keeps for gas.
    pub min_gas_reserve: String,
    /// Largest deposit, in ether, the participant pays.
    pub max_deposit: i32,
    /// Smallest acceptable bounty per deposit, as the bit pattern of an IEEE-754 single.
    pub min_rate_of_return_bits: u32,
    pub min_reveal_window: i32,
    pub max_reveal_delay: i32,
    /// Most campaigns followed at once.
    pub max_campaigns: i32,
    pub start_block: i32,
}

/// The chain the participant works on.
#[derive(Debug, Clone)]
pub struct Chain {
    pub name: String,
    pub chain_id: String,
    pub endpoint: String,
    /// Secret key of the participant, in hexadecimal.
    pub participant: String,
    pub opts: ChainOpts,
}

/// The service configuration.
#[derive(Debug, Clone)]
pub struct Config {
    pub chain: Chain,
    /// Address of the HTTP control endpoint.
    pub http_listen: String,
    /// Address of the metrics endpoint.
    pub prometheus_listen: String,
    pub root_secret: String,
    pub secret_key: ConfigKey,
}

/// What the chain's 256-bit `from_str` accepts: an optional `0x`, then at
/// most 64 hexadecimal digits of either case (none at all reads as zero).
pub open spec fn parse_u256_hex(s: Seq<char>) -> Option<nat> {
    let d = if starts_with(s, "0x"@) {
        s.skip(2)
    } else {
        s
    };
    if d.len() <= 64 && all_hex(d) {
        Some(hex_value(d))
    } else {
        None
    }
}

impl U256 {
    /// `16 * self + d`, defined below 2^256.
    pub fn times16_plus(&self, d: u8) -> (r: U256)
        requires
            d < 16,
            self@ * 16 + d < crate::uint::base3() * crate::uint::base1(),
        ensures
            r@ == self@ * 16 + d,
    {
        let t0 = (self.w0 as u128) * 16 + d as u128;
        assert(t0 == (t0 & 0xffff_ffff_ffff_ffffu128) + 0x1_0000_0000_0000_0000u128 * (t0 >> 64u128)
            && (t0 >> 64u128) < 16 && (t0 & 0xffff_ffff_ffff_ffffu128) < 0x1_0000_0000_0000_0000u128)
            by (bit_vector)
            requires
                t0 < 0x10_0000_0000_0000_0000u128,
        ;
        let t1 = (self.w1 as u128) * 16 + (t0 >> 64u128);
        assert(t1 == (t1 & 0xffff_ffff_ffff_ffffu128) + 0x1_0000_0000_0000_0000u128 * (t1 >> 64u128)
            && (t1 >> 64u128) < 16 && (t1 & 0xffff_ffff_ffff_ffffu128) < 0x1_0000_0000_0000_0000u128)
            by (bit_vector)
            requires
                t1 < 0x10_0000_0000_0000_0000u128,
        ;
        let t2 = (self.w2 as u128) * 16 + (t1 >> 64u128);
        assert(t2 == (t2 & 0xffff_ffff_ffff_ffffu128) + 0x1_0000_0000_0000_0000u128 * (t2 >> 64u128)
            && (t2 >> 64u128) < 16 && (t2 & 0xffff_ffff_ffff_ffffu128) < 0x1_0000_0000_0000_0000u128)
            by (bit_vector)
            requires
                t2 < 0x10_0000_0000_0000_0000u128,
        ;
        let t3 = (self.w3 as u128) * 16 + (t2 >> 64u128);
        assert(t3 == (t3 & 0xffff_ffff_ffff_ffffu128) + 0x1_0000_0000_0000_0000u128 * (t3 >> 64u128)
            && (t3 & 0xffff_ffff_ffff_ffffu128) < 0x1_0000_0000_0000_0000u128) by (bit_vector);
        let r = U256 {
            w0: (t0 & 0xffff_ffff_ffff_ffffu128) as u64,
            w1: (t1 & 0xffff_ffff_ffff_ffffu128) as u64,
            w2: (t2 & 0xffff_ffff_ffff_ffffu128) as u64,
            w3: (t3 & 0xffff_ffff_ffff_ffffu128) as u64,
        };
        proof {
            crate::uint::lemma_u256_bound(r);
            assert(t3 >> 64u128 == 0);
        }
        r
    }

    /// Parses the hexadecimal form the chain's 256-bit integers take in text.
    pub fn from_hex_str(s: &str) -> (r: Option<U256>)
        ensures
            r matches Some(v) ==> parse_u256_hex(s@) == Some(v@),
            r is None ==> parse_u256_hex(s@) is None,
    {
        let cs = chars_of(s);
        let mut i: usize = 0;
        if cs.len() >= 2 && cs[0] == '0' && cs[1] == 'x' {
            i = 2;
        }
        let ghost d = cs@.subrange(i as int, cs.len() as int);
        proof {
            assert(starts_with(s@, "0x"@) <==> (cs@.len() >= 2 && cs@[0] == '0' && cs@[1] == 'x'))
                by {
                reveal_strlit("0x");
                assert("0x"@ =~= seq!['0', 'x']);
                if cs@.len() >= 2 {
                    assert(cs@.take(2) =~= seq![cs@[0], cs@[1]]);
                }
            }
            assert(d == (if starts_with(s@, "0x"@) { s@.skip(2) } else { s@ }));
        }
        if cs.len() - i > 64 {
            return None;
        }
        let start = i;
        let mut acc = U256::zero();
        while i < cs.len()
            invariant
                start <= i <= cs.len(),
                cs.len() - start <= 64,
                d == cs@.subrange(start as int, cs.len() as int),
                cs@ == s@,
                d == (if starts_with(s@, "0x"@) { s@.skip(2) } else { s@ }),
                all_hex(d.take(i - start)),
                acc@ == hex_value(d.take(i - start)),
                acc@ < pow16(i - start),
            decreases cs.len() - i,
        {
            let ghost k = i - start;
            match hex_digit_value_exec(cs[i]) {
                None => {
                    assert(d[k] == cs@[i as int]);
                    assert(!all_hex(d));
                    return None;
                },
                Some(v) => {
                    proof {
                        lemma_pow16_step(k);
                        lemma_pow16_mono(k + 1, 64);
                        assert(acc@ * 16 + v < pow16(k + 1));
                        lemma_pow16_64();
                    }
                    acc = acc.times16_plus(v);
                    assert(d.take(k + 1).drop_last() == d.take(k));
                    assert(d.take(k + 1).last() == cs@[i as int]);
                    assert(d[k] == cs@[i as int]);
                    i = i + 1;
                    assert forall|j: int| 0 <= j < d.take(i - start).len() implies (#[trigger] crate::text::hex_digit_value(d.take(i - start)[j])) is Some by {
                        if j < k {
                            assert(d.take(i - start)[j] == d.take(k)[j]);
                        }
                    }
                },
            }
        }
        assert(d.take(d.len() as int) == d);
        Some(acc)
    }
}

/// 16^n.
pub open spec fn pow16(n: int) -> nat
    decreases n,
{
    if n <= 0 {
        1
    } else {
        16 * pow16(n - 1)
    }
}

proof fn lemma_pow16_step(n: int)
    requires
        n >= 0,
    ensures
        pow16(n + 1) == 16 * pow16(n),
{
}

proof fn lemma_pow16_mono(a: int, b: int)
    requires
        0 <= a <= b,
    ensures
        pow16(a) <= pow16(b),
    decreases b - a,
{
    if a < b {
        lemma_pow16_mono(a, b - 1);
        lemma_pow16_step(b - 1);
    }
}

proof fn lemma_pow16_64()
    ensures
        pow16(64) == crate::uint::base3() * crate::uint::base1(),
{
    reveal_with_fuel(pow16, 65);
}

} // verus!
