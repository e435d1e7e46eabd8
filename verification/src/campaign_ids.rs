//! The list of campaigns being worked on, as kept in a text file: one
//! decimal id per line.
use vstd::prelude::*;
use crate::text::{
    chars_of, decimal, find_char, find_from, lemma_find_from_found, lemma_find_from_skip,
    lemma_decimal_digits, lemma_parse_decimal, parse_unsigned, parse_unsigned_range, push_decimal,
    push_str, string_from_chars, all_digits, is_digit,
};

verus! {

/// The name of the file, relative to the campaign directory.
pub const CAMPAIGN_IDS_FILE: &'static str = "campaign_ids.txt";

/// The path of the id list in directory `dir` (which ends with its separator).
pub open spec fn ids_path(dir: Seq<char>) -> Seq<char> {
    dir + "campaign_ids.txt"@
}

/// The path of the progress file of campaign `id` in directory `dir`: the
/// id in decimal, with the extension `.json`.
pub open spec fn status_path(dir: Seq<char>, id: u128) -> Seq<char> {
    dir + decimal(id as nat) + ".json"@
}

/// The path of the id list in directory `dir`.
pub fn campaign_ids_path(dir: &str) -> (r: String)
    ensures
        r@ == ids_path(dir@),
{
    let mut v: Vec<char> = Vec::new();
    push_str(&mut v, dir);
    push_str(&mut v, CAMPAIGN_IDS_FILE);
    string_from_chars(&v)
}

/// The path of the progress file of campaign `id` in directory `dir`.
pub fn campaign_status_path(dir: &str, id: u128) -> (r: String)
    ensures
        r@ == status_path(dir@, id),
{
    let mut v: Vec<char> = Vec::new();
    push_str(&mut v, dir);
    push_decimal(&mut v, id);
    push_str(&mut v, ".json");
    string_from_chars(&v)
}

/// The ids written in `s` from position `i` on: the text is cut at each line
/// break, empty pieces are skipped, and each other piece must read as a
/// 128-bit unsigned decimal (else there is no list).
pub open spec fn ids_from(s: Seq<char>, i: int) -> Option<Seq<u128>>
    decreases s.len() - i,
    when 0 <= i <= s.len()
{
    let end = match find_from(s, '\n', i) {
        Some(k) => k,
        None => s.len() as int,
    };
    proof {
        lemma_find_from_found(s, '\n', i);
    }
    let seg = s.subrange(i, end);
    let rest: Option<Seq<u128>> = if end < s.len() {
        ids_from(s, end + 1)
    } else {
        Some(Seq::empty())
    };
    if seg.len() == 0 {
        rest
    } else {
        match parse_unsigned(seg, u128::MAX as nat) {
            None => None,
            Some(v) => match rest {
                None => None,
                Some(r) => Some(seq![v as u128] + r),
            },
        }
    }
}

/// The ids written in a file's text.
pub open spec fn ids_of_text(s: Seq<char>) -> Option<Seq<u128>> {
    ids_from(s, 0)
}

/// The text of a file holding `ids`: each in decimal, followed by a line break.
pub open spec fn ids_text(ids: Seq<u128>) -> Seq<char>
    decreases ids.len(),
{
    if ids.len() == 0 {
        Seq::empty()
    } else {
        decimal(ids[0] as nat) + seq!['\n'] + ids_text(ids.drop_first())
    }
}

/// The line that records one id.
pub open spec fn id_line(id: u128) -> Seq<char> {
    decimal(id as nat) + seq!['\n']
}

/// Writing one more id appends its line.
pub proof fn lemma_ids_text_push(ids: Seq<u128>, x: u128)
    ensures
        ids_text(ids.push(x)) == ids_text(ids) + id_line(x),
    decreases ids.len(),
{
    if ids.len() == 0 {
        assert(ids.push(x).drop_first() == Seq::<u128>::empty());
        assert(ids_text(Seq::<u128>::empty()) == Seq::<char>::empty());
        assert(ids.push(x)[0] == x);
        assert(ids_text(ids) == Seq::<char>::empty());
        assert(ids_text(ids.push(x)) == decimal(x as nat) + seq!['\n'] + Seq::<char>::empty());
    } else {
        lemma_ids_text_push(ids.drop_first(), x);
        assert(ids.push(x).drop_first() == ids.drop_first().push(x));
    }
}

/// Where the numerals stop being parsed: a decimal has no line break.
proof fn lemma_decimal_no_newline(n: nat)
    ensures
        forall|j: int| 0 <= j < decimal(n).len() ==> decimal(n)[j] != '\n',
{
    lemma_decimal_digits(n);
    assert forall|j: int| 0 <= j < decimal(n).len() implies decimal(n)[j] != '\n' by {
        assert(is_digit(decimal(n)[j]));
    }
}

/// Reading back what was written from any starting text gives the ids.
proof fn lemma_ids_roundtrip_from(p: Seq<char>, ids: Seq<u128>)
    ensures
        ids_from(p + ids_text(ids), p.len() as int) == Some(ids),
    decreases ids.len(),
{
    let s = p + ids_text(ids);
    let i = p.len() as int;
    if ids.len() == 0 {
        assert(s == p);
        assert(find_from(s, '\n', i) is None);
        assert(s.subrange(i, s.len() as int).len() == 0);
    } else {
        let x = ids[0];
        let dx = decimal(x as nat);
        let p2 = p + dx + seq!['\n'];
        let rest = ids.drop_first();
        assert(s == p2 + ids_text(rest));
        lemma_decimal_no_newline(x as nat);
        let end = i + dx.len();
        assert forall|k: int| i <= k < end implies s[k] != '\n' by {
            assert(s[k] == dx[k - i]);
        }
        lemma_find_from_skip(s, '\n', i, end);
        assert(s[end] == '\n');
        assert(find_from(s, '\n', end) == Some(end));
        assert(s.subrange(i, end) == dx);
        lemma_decimal_digits(x as nat);
        lemma_parse_decimal(x as nat, u128::MAX as nat);
        lemma_ids_roundtrip_from(p2, rest);
        assert(p2.len() == end + 1);
        assert(seq![x] + rest == ids);
    }
}

/// Reading a file's text back gives exactly the ids written to it.
pub proof fn lemma_ids_roundtrip(ids: Seq<u128>)
    ensures
        ids_of_text(ids_text(ids)) == Some(ids),
{
    lemma_ids_roundtrip_from(Seq::empty(), ids);
    assert(Seq::<char>::empty() + ids_text(ids) == ids_text(ids));
}

/// Reading from position `i` of a text that is empty there or ends with a
/// line break, with one more line appended, gives the ids read before and
/// then the new one.
proof fn lemma_ids_append_from(t: Seq<char>, i: int, x: u128)
    requires
        0 <= i <= t.len(),
        i == t.len() || t[t.len() - 1] == '\n',
        ids_from(t, i) is Some,
    ensures
        ids_from(t + id_line(x), i) == Some(ids_from(t, i)->0.push(x)),
    decreases t.len() - i,
{
    let s = t + id_line(x);
    if i == t.len() {
        assert(find_from(t, '\n', i) is None);
        assert(t.subrange(i, t.len() as int).len() == 0);
        assert(ids_from(t, i) == Some(Seq::<u128>::empty()));
        assert(ids_text(seq![x]) == id_line(x)) by {
            assert(seq![x].drop_first() == Seq::<u128>::empty());
            assert(ids_text(Seq::<u128>::empty()) == Seq::<char>::empty());
            assert(seq![x][0] == x);
            assert(id_line(x) == decimal(x as nat) + seq!['\n'] + Seq::<char>::empty());
        }
        lemma_ids_roundtrip_from(t, seq![x]);
        assert(Seq::<u128>::empty().push(x) == seq![x]);
    } else {
        lemma_find_from_found(t, '\n', i);
        let k = find_from(t, '\n', i)->0;
        assert forall|j: int| i <= j < k implies s[j] != '\n' by {
            assert(s[j] == t[j]);
        }
        lemma_find_from_skip(s, '\n', i, k);
        assert(s[k] == '\n');
        assert(find_from(s, '\n', k) == Some(k));
        assert(s.subrange(i, k) == t.subrange(i, k));
        lemma_ids_append_from(t, k + 1, x);
        let seg = t.subrange(i, k);
        if seg.len() != 0 {
            let v = parse_unsigned(seg, u128::MAX as nat)->0;
            let r = ids_from(t, k + 1)->0;
            assert(seq![v as u128] + r.push(x) == (seq![v as u128] + r).push(x));
        }
    }
}

/// Appending the line of an id to a readable list whose text is empty or
/// ends with a line break (as every text this library writes does) reads
/// back as the old list followed by the id.
pub proof fn lemma_ids_append(t: Seq<char>, x: u128)
    requires
        ids_of_text(t) is Some,
        t.len() == 0 || t.last() == '\n',
    ensures
        ids_of_text(t + id_line(x)) == Some(ids_of_text(t)->0.push(x)),
{
    lemma_ids_append_from(t, 0, x);
}

/// The line that records `id` (what is appended to the file when a campaign starts).
pub fn campaign_id_line(id: u128) -> (r: String)
    ensures
        r@ == id_line(id),
{
    let mut v: Vec<char> = Vec::new();
    push_decimal(&mut v, id);
    v.push('\n');
    assert(v@ == decimal(id as nat) + seq!['\n']);
    string_from_chars(&v)
}

/// The text of a file holding `ids`.
pub fn campaign_ids_text(ids: &Vec<u128>) -> (r: String)
    ensures
        r@ == ids_text(ids@),
{
    let mut v: Vec<char> = Vec::new();
    let mut i: usize = 0;
    while i < ids.len()
        invariant
            i <= ids.len(),
            v@ == ids_text(ids@.take(i as int)),
        decreases ids.len() - i,
    {
        proof {
            lemma_ids_text_push(ids@.take(i as int), ids@[i as int]);
            assert(ids@.take(i + 1) == ids@.take(i as int).push(ids@[i as int]));
        }
        push_decimal(&mut v, ids[i]);
        v.push('\n');
        i = i + 1;
    }
    assert(ids@.take(ids.len() as int) == ids@);
    string_from_chars(&v)
}

/// The ids written in a file's text, or `None` when a line is not a decimal id.
pub fn campaign_ids_from_text(text: &str) -> (r: Option<Vec<u128>>)
    ensures
        r matches Some(v) ==> ids_of_text(text@) == Some(v@),
        r is None ==> ids_of_text(text@) is None,
{
    let cs = chars_of(text);
    let ghost s = cs@;
    let mut acc: Vec<u128> = Vec::new();
    let mut i: usize = 0;
    loop
        invariant
            i <= cs.len(),
            s == cs@,
            s == text@,
            ids_from(s, 0) == (match ids_from(s, i as int) {
                Some(r) => Some(acc@ + r),
                None => None::<Seq<u128>>,
            }),
        decreases cs.len() - i,
    {
        let found = find_char(&cs, '\n', i);
        let end = match found {
            Some(k) => k,
            None => cs.len(),
        };
        proof {
            lemma_find_from_found(s, '\n', i as int);
        }
        let ghost rest: Option<Seq<u128>> = if end < cs.len() {
            ids_from(s, end + 1)
        } else {
            Some(Seq::empty())
        };
        assert(ids_from(s, i as int) == (if end == i {
            rest
        } else {
            match parse_unsigned(s.subrange(i as int, end as int), u128::MAX as nat) {
                None => None,
                Some(v) => match rest {
                    None => None,
                    Some(r) => Some(seq![v as u128] + r),
                },
            }
        }));
        if end > i {
            match parse_unsigned_range(&cs, i, end, u128::MAX) {
                None => {
                    return None;
                },
                Some(v) => {
                    proof {
                        match rest {
                            Some(r) => {
                                assert(acc@.push(v) + r == acc@ + (seq![v] + r));
                            },
                            None => {},
                        }
                    }
                    acc.push(v);
                },
            }
        }
        if end == cs.len() {
            assert(acc@ + Seq::<u128>::empty() == acc@);
            return Some(acc);
        }
        i = end + 1;
    }
}

/// The ids written in a file's text, every line of which is known to be a decimal id.
pub fn read_campaign_ids(text: &str) -> (r: Vec<u128>)
    requires
        ids_of_text(text@) is Some,
    ensures
        ids_of_text(text@) == Some(r@),
{
    match campaign_ids_from_text(text) {
        Some(v) => v,
        None => Vec::new(),
    }
}

/// The ids without any occurrence of `id`, in their order.
pub fn remove_campaign_id(ids: &Vec<u128>, id: u128) -> (r: Vec<u128>)
    ensures
        r@ == ids@.filter(|u: u128| u != id),
{
    let mut r: Vec<u128> = Vec::new();
    let mut i: usize = 0;
    while i < ids.len()
        invariant
            i <= ids.len(),
            r@ == ids@.take(i as int).filter(|u: u128| u != id),
        decreases ids.len() - i,
    {
        proof {
            reveal_with_fuel(Seq::filter, 1);
            assert(ids@.take(i + 1).drop_last() == ids@.take(i as int));
        }
        if ids[i] != id {
            r.push(ids[i]);
        }
        i = i + 1;
    }
    assert(ids@.take(ids.len() as int) == ids@);
    r
}

/// Removing an id leaves no occurrence of it and keeps every other id.
pub proof fn lemma_remove_campaign_id(ids: Seq<u128>, id: u128, other: u128)
    requires
        other != id,
    ensures
        !ids.filter(|u: u128| u != id).contains(id),
        ids.contains(other) <==> ids.filter(|u: u128| u != id).contains(other),
{
    broadcast use vstd::seq_lib::group_filter_ensures;
    let f = |u: u128| u != id;
    if ids.filter(f).contains(id) {
        let k = choose|k: int| 0 <= k < ids.filter(f).len() && ids.filter(f)[k] == id;
        assert(f(ids.filter(f)[k]));
    }
    if ids.contains(other) {
        let k = choose|k: int| 0 <= k < ids.len() && ids[k] == other;
        assert(f(ids[k]));
        assert(ids.filter(f).contains(ids[k]));
    }
    if ids.filter(f).contains(other) {
        ids.lemma_filter_contains_rev(f, other);
    }
}

/// Removing an id that a list does not hold leaves the list as it is.
proof fn lemma_remove_absent(v: Seq<u128>, id: u128)
    requires
        forall|i: int| 0 <= i < v.len() ==> v[i] != id,
    ensures
        v.filter(|u: u128| u != id) == v,
    decreases v.len(),
{
    reveal(Seq::filter);
    if v.len() > 0 {
        lemma_remove_absent(v.drop_last(), id);
        assert(v.drop_last().push(v.last()) =~= v);
    }
}

/// Storing an id that the list does not hold and then removing it gives the
/// list back, and a second removal changes nothing.
pub proof fn lemma_store_then_remove(v: Seq<u128>, id: u128)
    requires
        !v.contains(id),
    ensures
        v.push(id).filter(|u: u128| u != id) == v,
        v.filter(|u: u128| u != id).filter(|u: u128| u != id) == v.filter(|u: u128| u != id),
{
    reveal(Seq::filter);
    assert(v.push(id).drop_last() =~= v);
    assert forall|i: int| 0 <= i < v.len() implies v[i] != id by {
        if v[i] == id {
            assert(v.contains(id));
        }
    }
    lemma_remove_absent(v, id);
    let w = v.filter(|u: u128| u != id);
    assert forall|i: int| 0 <= i < w.len() implies w[i] != id by {
        v.lemma_filter_pred(|u: u128| u != id, i);
    }
    lemma_remove_absent(w, id);
}

/// On the file: appending the line of an id the file does not hold, then
/// writing back the list without that id, reads back the list first read.
pub proof fn lemma_file_store_then_remove(t: Seq<char>, id: u128)
    requires
        ids_of_text(t) is Some,
        !ids_of_text(t)->0.contains(id),
        t.len() == 0 || t.last() == '\n',
    ensures
        ids_of_text(t + id_line(id)) == Some(ids_of_text(t)->0.push(id)),
        ids_of_text(ids_text(ids_of_text(t)->0.push(id).filter(|u: u128| u != id))) == Some(
            ids_of_text(t)->0,
        ),
{
    let v = ids_of_text(t)->0;
    lemma_ids_append(t, id);
    lemma_store_then_remove(v, id);
    lemma_ids_roundtrip(v);
}

} // verus!
