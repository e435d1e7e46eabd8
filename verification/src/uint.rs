//! A 256-bit unsigned integer held as four little-endian 64-bit words,
//! the layout that the chain's numeric types use.
use vstd::prelude::*;

verus! {

/// 2^64.
pub open spec fn base1() -> nat {
    0x1_0000_0000_0000_0000nat
}

/// 2^128.
pub open spec fn base2() -> nat {
    0x1_0000_0000_0000_0000_0000_0000_0000_0000nat
}

/// 2^192.
pub open spec fn base3() -> nat {
    0x1_0000_0000_0000_0000_0000_0000_0000_0000_0000_0000_0000_0000nat
}

/// An unsigned 256-bit integer; `w0` is the least significant word.
#[derive(Clone, Copy, Debug, PartialEq, Eq, Structural)]
pub struct U256 {
    pub w0: u64,
    pub w1: u64,
    pub w2: u64,
    pub w3: u64,
}

impl View for U256 {
    type V = nat;

    open spec fn view(&self) -> nat {
        (self.w0 + base1() * self.w1 + base2() * self.w2 + base3() * self.w3) as nat
    }
}

/// Comparing values compares the words from the most significant down.
pub proof fn lemma_u256_lex(a: U256, b: U256)
    ensures
        (a@ < b@) <==> (a.w3 < b.w3 || (a.w3 == b.w3 && (a.w2 < b.w2 || (a.w2 == b.w2 && (a.w1
            < b.w1 || (a.w1 == b.w1 && a.w0 < b.w0)))))),
        (a.w3 == b.w3 && a.w2 == b.w2 && a.w1 == b.w1 && a.w0 == b.w0) <==> a@ == b@,
{
}

/// The largest value is below 2^256.
pub proof fn lemma_u256_bound(a: U256)
    ensures
        a@ < base3() * base1(),
{
}

impl U256 {
    /// Zero.
    pub fn zero() -> (r: U256)
        ensures
            r@ == 0,
    {
        U256 { w0: 0, w1: 0, w2: 0, w3: 0 }
    }

    /// The value of a 64-bit integer.
    pub fn from_u64(x: u64) -> (r: U256)
        ensures
            r@ == x,
    {
        U256 { w0: x, w1: 0, w2: 0, w3: 0 }
    }

    /// The value of a 128-bit integer.
    pub fn from_u128(x: u128) -> (r: U256)
        ensures
            r@ == x,
    {
        let lo = (x & 0xffff_ffff_ffff_ffffu128) as u64;
        let hi = (x >> 64u128) as u64;
        assert(x == (x & 0xffff_ffff_ffff_ffffu128) + 0x1_0000_0000_0000_0000u128 * (x >> 64u128)
            && (x & 0xffff_ffff_ffff_ffffu128) <= 0xffff_ffff_ffff_ffffu128 && (x >> 64u128)
            <= 0xffff_ffff_ffff_ffffu128) by (bit_vector);
        U256 { w0: lo, w1: hi, w2: 0, w3: 0 }
    }

    /// Whether the value is zero.
    pub fn is_zero(&self) -> (r: bool)
        ensures
            r == (self@ == 0),
    {
        self.w0 == 0 && self.w1 == 0 && self.w2 == 0 && self.w3 == 0
    }

    /// `self < other`.
    pub fn lt(&self, other: &U256) -> (r: bool)
        ensures
            r == (self@ < other@),
    {
        proof {
            lemma_u256_lex(*self, *other);
        }
        if self.w3 != other.w3 {
            self.w3 < other.w3
        } else if self.w2 != other.w2 {
            self.w2 < other.w2
        } else if self.w1 != other.w1 {
            self.w1 < other.w1
        } else {
            self.w0 < other.w0
        }
    }

    /// `self <= other`.
    pub fn le(&self, other: &U256) -> (r: bool)
        ensures
            r == (self@ <= other@),
    {
        !other.lt(self)
    }

    /// Whether the value fits in 128 bits.
    pub fn fits_u128(&self) -> (r: bool)
        ensures
            r == (self@ <= u128::MAX),
    {
        self.w2 == 0 && self.w3 == 0
    }

    /// The value as a 128-bit integer.
    pub fn as_u128(&self) -> (r: u128)
        requires
            self@ <= u128::MAX,
        ensures
            r == self@,
    {
        let lo = self.w0 as u128;
        let hi = self.w1 as u128;
        assert(hi * 0x1_0000_0000_0000_0000u128 <= 0xffff_ffff_ffff_ffff_0000_0000_0000_0000u128)
            by (nonlinear_arith)
            requires
                hi <= 0xffff_ffff_ffff_ffffu128,
        ;
        lo + hi * 0x1_0000_0000_0000_0000u128
    }

    /// `self - other`, defined where no borrow leaves the top word.
    pub fn sub(&self, other: &U256) -> (r: U256)
        requires
            other@ <= self@,
        ensures
            r@ == self@ - other@,
    {
        let (d0, c0) = sub_word(self.w0, other.w0, 0);
        let (d1, c1) = sub_word(self.w1, other.w1, c0);
        let (d2, c2) = sub_word(self.w2, other.w2, c1);
        let (d3, c3) = sub_word(self.w3, other.w3, c2);
        let r = U256 { w0: d0, w1: d1, w2: d2, w3: d3 };
        proof {
            lemma_u256_bound(r);
            assert(c3 == 0);
        }
        r
    }
}

/// One word of a subtraction with borrow: `a - b - borrow_in == d - 2^64 * borrow_out`.
fn sub_word(a: u64, b: u64, borrow_in: u64) -> (r: (u64, u64))
    requires
        borrow_in <= 1,
    ensures
        r.1 <= 1,
        a - b - borrow_in == r.0 - base1() * r.1,
{
    let need = b as u128 + borrow_in as u128;
    if (a as u128) >= need {
        ((a as u128 - need) as u64, 0)
    } else {
        ((a as u128 + 0x1_0000_0000_0000_0000u128 - need) as u64, 1)
    }
}


/// One word of a long division by ten: `rem * 2^64 + w == 10 * q + r`.
fn div10_word(rem: u64, w: u64) -> (r: (u64, u64))
    requires
        rem < 10,
    ensures
        r.1 < 10,
        rem * base1() + w == 10 * r.0 + r.1,
{
    let t: u128 = (rem as u128) * 0x1_0000_0000_0000_0000u128 + w as u128;
    let q = t / 10;
    let m = t % 10;
    assert(t == 10 * q + m) by {
        vstd::arithmetic::div_mod::lemma_fundamental_div_mod(t as int, 10);
    }
    assert(q < 0x1_0000_0000_0000_0000u128);
    (q as u64, m as u64)
}

impl U256 {
    /// The quotient and remainder of a division by ten.
    pub fn div_rem_10(&self) -> (r: (U256, u64))
        ensures
            r.1 < 10,
            self@ == 10 * r.0@ + r.1,
            r.0@ == self@ / 10,
            r.1 == self@ % 10,
    {
        let (q3, r3) = div10_word(0, self.w3);
        let (q2, r2) = div10_word(r3, self.w2);
        let (q1, r1) = div10_word(r2, self.w1);
        let (q0, r0) = div10_word(r1, self.w0);
        let q = U256 { w0: q0, w1: q1, w2: q2, w3: q3 };
        assert(self@ == 10 * q@ + r0);
        (q, r0)
    }
}

/// Appends the decimal numeral of a 256-bit value (what its `Display` writes).
pub fn push_decimal_u256(out: &mut Vec<char>, x: &U256)
    ensures
        final(out)@ == old(out)@ + crate::text::decimal(x@),
    decreases x@,
{
    let (q, d) = x.div_rem_10();
    let ten = U256::from_u64(10);
    if !x.lt(&ten) {
        push_decimal_u256(out, &q);
    }
    out.push(crate::text::digit_char_exec(d as u8));
    proof {
        if x@ >= 10 {
            assert(crate::text::decimal(x@) == crate::text::decimal(x@ / 10).push(
                crate::text::digit_char(x@ % 10),
            ));
        }
    }
}

} // verus!
