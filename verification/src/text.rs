//! Character-level helpers: decimal and hexadecimal numerals, padding,
//! prefixes and substrings, over `Seq<char>` models of strings.
use vstd::prelude::*;
use vstd::string::StrSliceExecFns;

verus! {

// ---------------------------------------------------------------------------
// Moving between `str`/`String` and vectors of characters.
// ---------------------------------------------------------------------------

/// The characters of `s`, in order.
pub fn chars_of(s: &str) -> (r: Vec<char>)
    ensures
        r@ == s@,
{
    let n = s.unicode_len();
    let mut v: Vec<char> = Vec::new();
    let mut i: usize = 0;
    while i < n
        invariant
            n == s@.len(),
            i <= n,
            v@ == s@.take(i as int),
        decreases n - i,
    {
        v.push(s.get_char(i));
        i = i + 1;
        assert(s@.take(i as int) == s@.take(i - 1 as int).push(s@[i - 1]));
    }
    assert(s@.take(n as int) == s@);
    v
}

/// The string made of the characters of `v` (std's `FromIterator<char>` for `String`).
#[verifier::external_body]
pub(crate) fn string_from_chars(v: &Vec<char>) -> (r: String)
    ensures
        r@ == v@,
{
    String::from_iter(v.iter())
}

/// Appends all of `src` to `dst`.
pub fn push_all(dst: &mut Vec<char>, src: &Vec<char>)
    ensures
        final(dst)@ == old(dst)@ + src@,
{
    let mut i: usize = 0;
    while i < src.len()
        invariant
            i <= src.len(),
            dst@ == old(dst)@ + src@.take(i as int),
        decreases src.len() - i,
    {
        dst.push(src[i]);
        i = i + 1;
        assert(src@.take(i as int) == src@.take(i - 1 as int).push(src@[i - 1]));
    }
    assert(src@.take(src.len() as int) == src@);
}

/// Appends the characters of a string slice.
pub fn push_str(dst: &mut Vec<char>, s: &str)
    ensures
        final(dst)@ == old(dst)@ + s@,
{
    let cs = chars_of(s);
    push_all(dst, &cs);
}

// ---------------------------------------------------------------------------
// Decimal numerals.
// ---------------------------------------------------------------------------

/// The character of a decimal digit.
pub open spec fn digit_char(d: nat) -> char
    recommends
        d < 10,
{
    ((48 + d) as int) as char
}

/// Whether a character is an ASCII decimal digit.
pub open spec fn is_digit(c: char) -> bool {
    '0' <= c && c <= '9'
}

/// The value of an ASCII decimal digit.
pub open spec fn digit_value(c: char) -> nat {
    (c as int - 48) as nat
}

/// The shortest decimal numeral of `n` (no sign, no leading zeros; "0" for zero).
pub open spec fn decimal(n: nat) -> Seq<char>
    decreases n,
{
    if n < 10 {
        seq![digit_char(n)]
    } else {
        decimal(n / 10).push(digit_char(n % 10))
    }
}

/// The value of a string of decimal digits, most significant first.
pub open spec fn digits_value(s: Seq<char>) -> nat
    decreases s.len(),
{
    if s.len() == 0 {
        0
    } else {
        digits_value(s.drop_last()) * 10 + digit_value(s.last())
    }
}

/// Whether every character of `s` is a decimal digit.
pub open spec fn all_digits(s: Seq<char>) -> bool {
    forall|i: int| 0 <= i < s.len() ==> is_digit(#[trigger] s[i])
}

/// What std's `from_str` gives for an unsigned integer type whose largest
/// value is `max`: an optional `+`, then at least one ASCII digit, and a value
/// that fits.
pub open spec fn parse_unsigned(s: Seq<char>, max: nat) -> Option<nat> {
    let d = if s.len() > 0 && s[0] == '+' {
        s.skip(1)
    } else {
        s
    };
    if d.len() > 0 && all_digits(d) && digits_value(d) <= max {
        Some(digits_value(d))
    } else {
        None
    }
}

/// A digit character for a value below ten.
pub fn digit_char_exec(d: u8) -> (c: char)
    requires
        d < 10,
    ensures
        c == digit_char(d as nat),
{
    match d {
        0 => '0',
        1 => '1',
        2 => '2',
        3 => '3',
        4 => '4',
        5 => '5',
        6 => '6',
        7 => '7',
        8 => '8',
        _ => '9',
    }
}

/// Appends the decimal numeral of `x`.
pub fn push_decimal(out: &mut Vec<char>, x: u128)
    ensures
        final(out)@ == old(out)@ + decimal(x as nat),
    decreases x,
{
    if x >= 10 {
        push_decimal(out, x / 10);
    }
    let d = (x % 10) as u8;
    out.push(digit_char_exec(d));
    proof {
        if x >= 10 {
            assert(decimal(x as nat) == decimal((x / 10) as nat).push(digit_char((x % 10) as nat)));
        } else {
            assert(x % 10 == x);
        }
    }
}

/// A prefix of a digit string is worth no more than the whole.
pub proof fn lemma_digits_value_prefix(s: Seq<char>, j: int)
    requires
        0 <= j <= s.len(),
    ensures
        digits_value(s.take(j)) <= digits_value(s),
    decreases s.len() - j,
{
    if j < s.len() {
        lemma_digits_value_prefix(s, j + 1);
        assert(s.take(j + 1).drop_last() == s.take(j));
    } else {
        assert(s.take(j) == s);
    }
}

/// Parses `cs[start..end]` as an optionally `+`-signed decimal numeral no greater than `max`.
pub fn parse_unsigned_range(cs: &Vec<char>, start: usize, end: usize, max: u128) -> (r: Option<u128>)
    requires
        start <= end <= cs.len(),
    ensures
        r matches Some(v) ==> parse_unsigned(cs@.subrange(start as int, end as int), max as nat)
            == Some(v as nat),
        r is None ==> parse_unsigned(cs@.subrange(start as int, end as int), max as nat) is None,
{
    let ghost s = cs@.subrange(start as int, end as int);
    let mut i = start;
    if i < end && cs[i] == '+' {
        i = i + 1;
    }
    let ghost d = cs@.subrange(i as int, end as int);
    assert(d == (if s.len() > 0 && s[0] == '+' { s.skip(1) } else { s }));
    if i == end {
        return None;
    }
    let first = i;
    let mut acc: u128 = 0;
    while i < end
        invariant
            first <= i <= end <= cs.len(),
            first < end,
            d == cs@.subrange(first as int, end as int),
            s == cs@.subrange(start as int, end as int),
            d == (if s.len() > 0 && s[0] == '+' { s.skip(1) } else { s }),
            acc == digits_value(d.take(i - first)),
            acc <= max,
            all_digits(d.take(i - first)),
        decreases end - i,
    {
        let c = cs[i];
        if !('0' <= c && c <= '9') {
            proof {
                assert(d[i - first] == c);
                assert(!is_digit(d[i - first]));
                assert(!all_digits(d));
            }
            return None;
        }
        let dv = (c as u32 - 48) as u128;
        let ghost k = i - first;
        assert(d.take(k + 1).drop_last() == d.take(k));
        assert(d.take(k + 1).last() == c);
        if dv > max || acc > (max - dv) / 10 {
            proof {
                if dv <= max {
                    assert(acc * 10 + dv > max) by (nonlinear_arith)
                        requires
                            acc > (max - dv) / 10,
                            max >= dv,
                    ;
                }
                lemma_digits_value_prefix(d, k + 1);
            }
            return None;
        }
        assert(acc * 10 + dv <= max) by (nonlinear_arith)
            requires
                acc <= (max - dv) / 10,
                max >= dv,
        ;
        acc = acc * 10 + dv;
        i = i + 1;
    }
    assert(d.take(d.len() as int) == d);
    Some(acc)
}

// ---------------------------------------------------------------------------
// Hexadecimal numerals.
// ---------------------------------------------------------------------------

/// The lower-case hexadecimal digit of a value below sixteen.
pub open spec fn hex_char(d: nat) -> char
    recommends
        d < 16,
{
    if d < 10 {
        ((48 + d) as int) as char
    } else {
        ((87 + d) as int) as char
    }
}

/// Two lower-case hexadecimal digits per byte, high nibble first.
pub open spec fn hex_lower(bytes: Seq<u8>) -> Seq<char>
    decreases bytes.len(),
{
    if bytes.len() == 0 {
        Seq::empty()
    } else {
        seq![hex_char((bytes[0] / 16) as nat), hex_char((bytes[0] % 16) as nat)] + hex_lower(
            bytes.drop_first(),
        )
    }
}

/// The value of a hexadecimal digit of either case.
pub open spec fn hex_digit_value(c: char) -> Option<nat> {
    if '0' <= c && c <= '9' {
        Some((c as int - 48) as nat)
    } else if 'a' <= c && c <= 'f' {
        Some((c as int - 87) as nat)
    } else if 'A' <= c && c <= 'F' {
        Some((c as int - 55) as nat)
    } else {
        None
    }
}

/// Whether every character of `s` is a hexadecimal digit.
pub open spec fn all_hex(s: Seq<char>) -> bool {
    forall|i: int| 0 <= i < s.len() ==> (#[trigger] hex_digit_value(s[i])) is Some
}

/// The value of a string of hexadecimal digits, most significant first.
pub open spec fn hex_value(s: Seq<char>) -> nat
    decreases s.len(),
{
    if s.len() == 0 {
        0
    } else {
        hex_value(s.drop_last()) * 16 + hex_digit_value(s.last()).unwrap_or(0)
    }
}

/// A hexadecimal digit character.
pub fn hex_char_exec(d: u8) -> (c: char)
    requires
        d < 16,
    ensures
        c == hex_char(d as nat),
{
    match d {
        0 => '0',
        1 => '1',
        2 => '2',
        3 => '3',
        4 => '4',
        5 => '5',
        6 => '6',
        7 => '7',
        8 => '8',
        9 => '9',
        10 => 'a',
        11 => 'b',
        12 => 'c',
        13 => 'd',
        14 => 'e',
        _ => 'f',
    }
}

/// The value of a hexadecimal digit character, if it is one.
pub fn hex_digit_value_exec(c: char) -> (r: Option<u8>)
    ensures
        r matches Some(v) ==> hex_digit_value(c) == Some(v as nat) && v < 16,
        r is None ==> hex_digit_value(c) is None,
{
    if '0' <= c && c <= '9' {
        Some((c as u32 - 48) as u8)
    } else if 'a' <= c && c <= 'f' {
        Some((c as u32 - 87) as u8)
    } else if 'A' <= c && c <= 'F' {
        Some((c as u32 - 55) as u8)
    } else {
        None
    }
}

// ---------------------------------------------------------------------------
// Padding, prefixes, substrings, ASCII case.
// ---------------------------------------------------------------------------

/// `s` right-aligned in a field of `width` characters filled with `fill`
/// (what `{:fill>width}` formats).
pub open spec fn pad_left(s: Seq<char>, width: nat, fill: char) -> Seq<char> {
    if s.len() < width {
        Seq::new((width - s.len()) as nat, |_i: int| fill) + s
    } else {
        s
    }
}

/// Appends `s` right-aligned in a field of `width` characters filled with `fill`.
pub fn push_padded(out: &mut Vec<char>, s: &Vec<char>, width: usize, fill: char)
    ensures
        final(out)@ == old(out)@ + pad_left(s@, width as nat, fill),
{
    let mut k: usize = s.len();
    let ghost start = out@;
    while k < width
        invariant
            s.len() <= k <= width || (k == s.len() && k >= width),
            out@ == start + Seq::new((k - s.len()) as nat, |_i: int| fill),
        decreases width - k,
    {
        out.push(fill);
        k = k + 1;
        assert(Seq::new((k - s.len()) as nat, |_i: int| fill) == Seq::new(
            (k - 1 - s.len()) as nat,
            |_i: int| fill,
        ).push(fill));
    }
    proof {
        if s.len() >= width {
            assert(Seq::new((k - s.len()) as nat, |_i: int| fill) == Seq::<char>::empty());
        }
    }
    let ghost mid = out@;
    push_all(out, s);
    assert(out@ == old(out)@ + pad_left(s@, width as nat, fill));
}

/// Whether `p` is a prefix of `s`.
pub open spec fn starts_with(s: Seq<char>, p: Seq<char>) -> bool {
    p.len() <= s.len() && s.take(p.len() as int) == p
}

/// Whether `p` occurs in `s` at position `i`.
pub open spec fn occurs_at(s: Seq<char>, p: Seq<char>, i: int) -> bool {
    0 <= i && i + p.len() <= s.len() && s.subrange(i, i + p.len()) == p
}

/// Whether `p` occurs anywhere in `s` (what `str::contains` with a string pattern tests).
pub open spec fn contains_str(s: Seq<char>, p: Seq<char>) -> bool {
    exists|i: int| occurs_at(s, p, i)
}

/// Whether `cs[i..]` begins with `p`.
pub fn matches_at(cs: &Vec<char>, p: &Vec<char>, i: usize) -> (r: bool)
    requires
        i <= cs.len(),
    ensures
        r == occurs_at(cs@, p@, i as int),
{
    if p.len() > cs.len() - i {
        return false;
    }
    let mut j: usize = 0;
    while j < p.len()
        invariant
            j <= p.len(),
            i + p.len() <= cs.len(),
            forall|k: int| 0 <= k < j ==> cs@[i + k] == p@[k],
        decreases p.len() - j,
    {
        if cs[i + j] != p[j] {
            assert(cs@.subrange(i as int, i + p.len())[j as int] != p@[j as int]);
            return false;
        }
        j = j + 1;
    }
    assert(cs@.subrange(i as int, i + p.len()) == p@);
    true
}

/// Whether `s` begins with `p`.
pub fn starts_with_exec(s: &Vec<char>, p: &str) -> (r: bool)
    ensures
        r == starts_with(s@, p@),
{
    let pv = chars_of(p);
    let r = matches_at(s, &pv, 0);
    proof {
        if p@.len() <= s@.len() {
            assert(s@.subrange(0, p@.len() as int) == s@.take(p@.len() as int));
        }
    }
    r
}

/// Whether `p` occurs in `s`.
pub fn contains_exec(s: &Vec<char>, p: &str) -> (r: bool)
    ensures
        r == contains_str(s@, p@),
{
    let pv = chars_of(p);
    let mut i: usize = 0;
    while i < s.len()
        invariant
            i <= s.len(),
            pv@ == p@,
            forall|k: int| 0 <= k < i ==> !occurs_at(s@, p@, k),
        decreases s.len() - i,
    {
        if matches_at(s, &pv, i) {
            return true;
        }
        i = i + 1;
    }
    if matches_at(s, &pv, i) {
        return true;
    }
    assert forall|k: int| !occurs_at(s@, p@, k) by {
        if 0 <= k && k + p@.len() <= s@.len() {
            assert(k <= i);
        }
    }
    false
}

/// The ASCII lower-case form of a character (other characters unchanged).
pub open spec fn ascii_lower(c: char) -> char {
    if 'A' <= c && c <= 'Z' {
        ((c as int) + 32) as char
    } else {
        c
    }
}

/// Whether `s`, compared with ASCII letters folded to lower case, equals the
/// lower-case ASCII word `w`. For such a word this is exactly
/// `s.to_lowercase() == w`: the only non-ASCII character that lower-cases to
/// an ASCII letter is the Kelvin sign, which becomes `k`, absent from the
/// words compared here.
pub open spec fn lower_eq(s: Seq<char>, w: Seq<char>) -> bool {
    s.len() == w.len() && forall|i: int| 0 <= i < s.len() ==> ascii_lower(#[trigger] s[i]) == w[i]
}

/// `lower_eq` on executable values.
pub fn lower_eq_exec(s: &Vec<char>, w: &str) -> (r: bool)
    ensures
        r == lower_eq(s@, w@),
{
    let wv = chars_of(w);
    if s.len() != wv.len() {
        return false;
    }
    let mut i: usize = 0;
    while i < s.len()
        invariant
            i <= s.len(),
            s.len() == wv.len(),
            wv@ == w@,
            forall|k: int| 0 <= k < i ==> ascii_lower(#[trigger] s@[k]) == w@[k],
        decreases s.len() - i,
    {
        let c = s[i];
        let lc = if 'A' <= c && c <= 'Z' {
            char_from_u32((c as u32) + 32)
        } else {
            c
        };
        if lc != wv[i] {
            return false;
        }
        i = i + 1;
    }
    true
}

/// The character with a code point known to be valid.
fn char_from_u32(x: u32) -> (c: char)
    requires
        0x61 <= x <= 0x7a,
    ensures
        c as u32 == x,
{
    match x {
        0x61 => 'a',
        0x62 => 'b',
        0x63 => 'c',
        0x64 => 'd',
        0x65 => 'e',
        0x66 => 'f',
        0x67 => 'g',
        0x68 => 'h',
        0x69 => 'i',
        0x6a => 'j',
        0x6b => 'k',
        0x6c => 'l',
        0x6d => 'm',
        0x6e => 'n',
        0x6f => 'o',
        0x70 => 'p',
        0x71 => 'q',
        0x72 => 'r',
        0x73 => 's',
        0x74 => 't',
        0x75 => 'u',
        0x76 => 'v',
        0x77 => 'w',
        0x78 => 'x',
        0x79 => 'y',
        _ => 'z',
    }
}


/// Whether `s` is exactly the characters of `w`.
pub fn eq_str(s: &Vec<char>, w: &str) -> (r: bool)
    ensures
        r == (s@ == w@),
{
    let wv = chars_of(w);
    if s.len() != wv.len() {
        return false;
    }
    let r = matches_at(s, &wv, 0);
    assert(s@.subrange(0, wv@.len() as int) == s@);
    r
}

/// Whether `cs[start..end]` is exactly the characters of `w`.
pub fn range_eq_str(cs: &Vec<char>, start: usize, end: usize, w: &str) -> (r: bool)
    requires
        start <= end <= cs.len(),
    ensures
        r == (cs@.subrange(start as int, end as int) == w@),
{
    let wv = chars_of(w);
    if end - start != wv.len() {
        return false;
    }
    matches_at(cs, &wv, start)
}

/// The characters `cs[start..end]` as a new vector.
pub fn slice_chars(cs: &Vec<char>, start: usize, end: usize) -> (r: Vec<char>)
    requires
        start <= end <= cs.len(),
    ensures
        r@ == cs@.subrange(start as int, end as int),
{
    let mut r: Vec<char> = Vec::new();
    let mut i = start;
    while i < end
        invariant
            start <= i <= end <= cs.len(),
            r@ == cs@.subrange(start as int, i as int),
        decreases end - i,
    {
        r.push(cs[i]);
        i = i + 1;
    }
    r
}

/// The first position at or after `from` where `c` occurs in `s`.
pub open spec fn find_from(s: Seq<char>, c: char, from: int) -> Option<int>
    decreases s.len() - from,
{
    if from < 0 || from >= s.len() {
        None
    } else if s[from] == c {
        Some(from)
    } else {
        find_from(s, c, from + 1)
    }
}

/// Skipping positions that do not hold `c` does not change the first match.
pub proof fn lemma_find_from_skip(s: Seq<char>, c: char, from: int, i: int)
    requires
        0 <= from <= i <= s.len(),
        forall|k: int| from <= k < i ==> s[k] != c,
    ensures
        find_from(s, c, from) == find_from(s, c, i),
    decreases i - from,
{
    if from < i {
        lemma_find_from_skip(s, c, from + 1, i);
    }
}

/// What `find_from` finds, it finds at a match with none before it.
pub proof fn lemma_find_from_found(s: Seq<char>, c: char, from: int)
    requires
        0 <= from,
    ensures
        find_from(s, c, from) matches Some(k) ==> from <= k < s.len() && s[k] == c && forall|
            j: int,
        | from <= j < k ==> s[j] != c,
        find_from(s, c, from) is None ==> forall|j: int| from <= j < s.len() ==> s[j] != c,
    decreases s.len() - from,
{
    if from < s.len() && s[from] != c {
        lemma_find_from_found(s, c, from + 1);
    }
}

/// `find_from` on executable values.
pub fn find_char(cs: &Vec<char>, c: char, from: usize) -> (r: Option<usize>)
    requires
        from <= cs.len(),
    ensures
        r matches Some(k) ==> find_from(cs@, c, from as int) == Some(k as int) && from <= k
            < cs.len() && cs@[k as int] == c,
        r is None ==> find_from(cs@, c, from as int) is None,
{
    let mut i = from;
    while i < cs.len()
        invariant
            from <= i <= cs.len(),
            forall|k: int| from <= k < i ==> cs@[k] != c,
        decreases cs.len() - i,
    {
        if cs[i] == c {
            proof {
                lemma_find_from_skip(cs@, c, from as int, i as int);
            }
            return Some(i);
        }
        i = i + 1;
    }
    proof {
        lemma_find_from_skip(cs@, c, from as int, i as int);
    }
    None
}


/// A copy of a byte vector.
pub fn copy_bytes(v: &Vec<u8>) -> (r: Vec<u8>)
    ensures
        r@ == v@,
{
    let mut r: Vec<u8> = Vec::new();
    let mut i: usize = 0;
    while i < v.len()
        invariant
            i <= v.len(),
            r@ == v@.take(i as int),
        decreases v.len() - i,
    {
        r.push(v[i]);
        i = i + 1;
        assert(v@.take(i as int) == v@.take(i - 1 as int).push(v@[i - 1]));
    }
    assert(v@.take(v.len() as int) == v@);
    r
}


/// A decimal numeral is a non-empty string of digits worth its number.
pub proof fn lemma_decimal_digits(n: nat)
    ensures
        decimal(n).len() >= 1,
        all_digits(decimal(n)),
        digits_value(decimal(n)) == n,
    decreases n,
{
    if n >= 10 {
        lemma_decimal_digits(n / 10);
        let d = decimal(n);
        assert(d.drop_last() == decimal(n / 10));
        assert(d.last() == digit_char(n % 10));
        assert(digit_value(digit_char(n % 10)) == n % 10);
        assert(n == (n / 10) * 10 + n % 10);
        assert(d.len() > 0);
        assert(digits_value(d) == digits_value(d.drop_last()) * 10 + digit_value(d.last()));
        assert forall|i: int| 0 <= i < d.len() implies is_digit(#[trigger] d[i]) by {
            if i < d.len() - 1 {
                assert(d[i] == decimal(n / 10)[i]);
            }
        }
    } else {
        assert(digit_value(digit_char(n)) == n);
        let d = decimal(n);
        assert(d.drop_last().len() == 0);
        assert(digits_value(d.drop_last()) == 0);
        assert(digits_value(d) == digits_value(d.drop_last()) * 10 + digit_value(d.last()));
    }
}

/// std's `from_str` reads a decimal numeral back as its number.
pub proof fn lemma_parse_decimal(n: nat, max: nat)
    requires
        n <= max,
    ensures
        parse_unsigned(decimal(n), max) == Some(n),
{
    lemma_decimal_digits(n);
    assert(is_digit(decimal(n)[0]));
}


/// Whether a character has the Unicode `White_Space` property (what
/// `char::is_whitespace` tests).
pub open spec fn is_white_space(c: char) -> bool {
    ('\u{9}' <= c && c <= '\u{d}') || c == ' ' || c == '\u{85}' || c == '\u{a0}' || c == '\u{1680}'
        || ('\u{2000}' <= c && c <= '\u{200a}') || c == '\u{2028}' || c == '\u{2029}' || c
        == '\u{202f}' || c == '\u{205f}' || c == '\u{3000}'
}

/// `is_white_space` on executable values.
pub fn is_white_space_exec(c: char) -> (r: bool)
    ensures
        r == is_white_space(c),
{
    ('\u{9}' <= c && c <= '\u{d}') || c == ' ' || c == '\u{85}' || c == '\u{a0}' || c == '\u{1680}'
        || ('\u{2000}' <= c && c <= '\u{200a}') || c == '\u{2028}' || c == '\u{2029}' || c
        == '\u{202f}' || c == '\u{205f}' || c == '\u{3000}'
}

/// The first position at or after `i` that does not hold white space.
pub open spec fn first_non_ws(s: Seq<char>, i: int) -> int
    decreases s.len() - i,
{
    if i < 0 || i >= s.len() {
        s.len() as int
    } else if is_white_space(s[i]) {
        first_non_ws(s, i + 1)
    } else {
        i
    }
}

/// One past the last position before `j` that does not hold white space.
pub open spec fn end_non_ws(s: Seq<char>, j: int) -> int
    decreases j,
{
    if j <= 0 || j > s.len() {
        0
    } else if is_white_space(s[j - 1]) {
        end_non_ws(s, j - 1)
    } else {
        j
    }
}

/// `s` without white space at either end (what `str::trim` gives).
pub open spec fn trim(s: Seq<char>) -> Seq<char> {
    let a = first_non_ws(s, 0);
    let b = end_non_ws(s, s.len() as int);
    if a < b {
        s.subrange(a, b)
    } else {
        Seq::empty()
    }
}

/// The characters of `s` without white space at either end.
pub fn trim_chars(cs: &Vec<char>) -> (r: Vec<char>)
    ensures
        r@ == trim(cs@),
{
    let mut i: usize = 0;
    while i < cs.len() && is_white_space_exec(cs[i])
        invariant
            i <= cs.len(),
            first_non_ws(cs@, 0) == first_non_ws(cs@, i as int),
        decreases cs.len() - i,
    {
        i = i + 1;
    }
    let mut j: usize = cs.len();
    while j > 0 && is_white_space_exec(cs[j - 1])
        invariant
            j <= cs.len(),
            end_non_ws(cs@, cs.len() as int) == end_non_ws(cs@, j as int),
        decreases j,
    {
        j = j - 1;
    }
    if i < j {
        slice_chars(cs, i, j)
    } else {
        Vec::new()
    }
}

/// Whether every character is ASCII.
pub open spec fn all_ascii(s: Seq<char>) -> bool {
    forall|i: int| 0 <= i < s.len() ==> (#[trigger] s[i] as int) < 128
}

/// Two hexadecimal digits per byte, all of them ASCII.
pub proof fn lemma_hex_lower(b: Seq<u8>)
    ensures
        hex_lower(b).len() == 2 * b.len(),
        all_ascii(hex_lower(b)),
        all_hex(hex_lower(b)),
    decreases b.len(),
{
    if b.len() > 0 {
        lemma_hex_lower(b.drop_first());
        let h = hex_lower(b);
        let t = hex_lower(b.drop_first());
        assert forall|i: int| 0 <= i < h.len() implies (#[trigger] h[i] as int) < 128 && (
        #[trigger] hex_digit_value(h[i])) is Some by {
            if i >= 2 {
                assert(h[i] == t[i - 2]);
            }
        }
    }
}

/// Appends the lower-case hexadecimal digits of `bytes`.
pub fn push_hex(out: &mut Vec<char>, bytes: &[u8])
    ensures
        final(out)@ == old(out)@ + hex_lower(bytes@),
{
    let mut i: usize = 0;
    let ghost start = out@;
    assert(bytes@.skip(0) == bytes@);
    while i < bytes.len()
        invariant
            i <= bytes.len(),
            start == old(out)@,
            start + hex_lower(bytes@) == out@ + hex_lower(bytes@.skip(i as int)),
        decreases bytes.len() - i,
    {
        let b = bytes[i];
        proof {
            let rest = bytes@.skip(i as int);
            assert(rest[0] == b);
            assert(rest.drop_first() == bytes@.skip(i + 1));
            assert(hex_lower(rest) == seq![hex_char((b / 16) as nat), hex_char((b % 16) as nat)]
                + hex_lower(bytes@.skip(i + 1)));
        }
        out.push(hex_char_exec(b / 16));
        out.push(hex_char_exec(b % 16));
        i = i + 1;
    }
    assert(bytes@.skip(bytes.len() as int).len() == 0);
    assert(hex_lower(bytes@.skip(bytes.len() as int)) == Seq::<char>::empty());
}

} // verus!
