//! ASCII case handling and string comparison helpers.
//!
//! Settings values and database names are matched case-insensitively over
//! the ASCII letters, so the helpers here work on the ASCII range alone and
//! leave every other character unchanged.

use vstd::prelude::*;
use vstd::string::{StrSliceExecFns, StringExecFns};

verus! {

/// The ASCII-uppercase counterpart of a character: `'a'..'z'` map to
/// `'A'..'Z'`, every other character is unchanged.
pub open spec fn upper_char(c: char) -> char {
    if 97 <= c as u32 && c as u32 <= 122 {
        (((c as u32) - 32) as u8) as char
    } else {
        c
    }
}

/// The ASCII-lowercase counterpart of a character: `'A'..'Z'` map to
/// `'a'..'z'`, every other character is unchanged.
pub open spec fn lower_char(c: char) -> char {
    if 65 <= c as u32 && c as u32 <= 90 {
        (((c as u32) + 32) as u8) as char
    } else {
        c
    }
}

/// A character sequence with every ASCII letter uppercased.
pub open spec fn upper(s: Seq<char>) -> Seq<char> {
    s.map_values(|c: char| upper_char(c))
}

/// A character sequence with every ASCII letter lowercased.
pub open spec fn lower(s: Seq<char>) -> Seq<char> {
    s.map_values(|c: char| lower_char(c))
}

fn upper_char_exec(c: char) -> (r: char)
    ensures
        r == upper_char(c),
{
    let x = c as u32;
    if 97 <= x && x <= 122 {
        ((x - 32) as u8) as char
    } else {
        c
    }
}

fn lower_char_exec(c: char) -> (r: char)
    ensures
        r == lower_char(c),
{
    let x = c as u32;
    if 65 <= x && x <= 90 {
        ((x + 32) as u8) as char
    } else {
        c
    }
}

/// Uppercasing a character twice is the same as uppercasing it once.
pub proof fn lemma_upper_char_idempotent(c: char)
    ensures
        upper_char(upper_char(c)) == upper_char(c),
{
}

/// Uppercasing a sequence twice is the same as uppercasing it once.
pub proof fn lemma_upper_idempotent(s: Seq<char>)
    ensures
        upper(upper(s)) == upper(s),
{
    assert forall|i: int| 0 <= i < s.len() implies upper(upper(s))[i] == upper(s)[i] by {
        lemma_upper_char_idempotent(s[i]);
    }
    assert(upper(upper(s)) =~= upper(s));
}

/// Whether two strings are equal.
pub fn str_eq(a: &str, b: &str) -> (r: bool)
    ensures
        r == (a@ == b@),
{
    let alen = a.unicode_len();
    let blen = b.unicode_len();
    if alen != blen {
        return false;
    }
    let mut i: usize = 0;
    while i < alen
        invariant
            alen == a@.len(),
            blen == b@.len(),
            alen == blen,
            i <= alen,
            forall|j: int| 0 <= j < i ==> a@[j] == b@[j],
        decreases alen - i,
    {
        if a.get_char(i) != b.get_char(i) {
            return false;
        }
        i += 1;
    }
    assert(a@ =~= b@);
    true
}

/// Whether two strings are equal up to ASCII case.
pub fn eq_ignore_ascii_case(a: &str, b: &str) -> (r: bool)
    ensures
        r == (upper(a@) == upper(b@)),
{
    let alen = a.unicode_len();
    let blen = b.unicode_len();
    if alen != blen {
        assert(upper(a@).len() != upper(b@).len());
        return false;
    }
    let mut i: usize = 0;
    while i < alen
        invariant
            alen == a@.len(),
            blen == b@.len(),
            alen == blen,
            i <= alen,
            forall|j: int| 0 <= j < i ==> upper_char(a@[j]) == upper_char(b@[j]),
        decreases alen - i,
    {
        if upper_char_exec(a.get_char(i)) != upper_char_exec(b.get_char(i)) {
            assert(upper(a@)[i as int] != upper(b@)[i as int]);
            return false;
        }
        i += 1;
    }
    assert(upper(a@) =~= upper(b@));
    true
}

/// Whether `s` ends with `suffix`.
pub fn ends_with(s: &str, suffix: &str) -> (r: bool)
    ensures
        r == (s@.len() >= suffix@.len() && s@.subrange(
            s@.len() - suffix@.len(),
            s@.len() as int,
        ) == suffix@),
{
    let slen = s.unicode_len();
    let mlen = suffix.unicode_len();
    if slen < mlen {
        return false;
    }
    let start = slen - mlen;
    let mut i: usize = 0;
    while i < mlen
        invariant
            slen == s@.len(),
            mlen == suffix@.len(),
            start == slen - mlen,
            i <= mlen,
            forall|j: int| 0 <= j < i ==> s@[start + j] == suffix@[j],
        decreases mlen - i,
    {
        if s.get_char(start + i) != suffix.get_char(i) {
            assert(s@.subrange(s@.len() - suffix@.len(), s@.len() as int)[i as int] != suffix@[i as int]);
            return false;
        }
        i += 1;
    }
    assert(s@.subrange(s@.len() - suffix@.len(), s@.len() as int) =~= suffix@);
    true
}

/// The digit character for a value below ten.
pub open spec fn digit_char(d: u8) -> char {
    ((48 + d) as u8) as char
}

/// The decimal digits of a byte value, without leading zeros.
pub open spec fn u8_decimal(v: u8) -> Seq<char> {
    if v < 10 {
        seq![digit_char(v)]
    } else if v < 100 {
        seq![digit_char(v / 10), digit_char(v % 10)]
    } else {
        seq![digit_char(v / 100), digit_char((v / 10) % 10), digit_char(v % 10)]
    }
}

/// Writes a byte value in decimal.
pub fn u8_to_decimal(v: u8) -> (r: String)
    ensures
        r@ == u8_decimal(v),
{
    let mut r = String::new();
    if v >= 100 {
        push_char(&mut r, ((48 + v / 100) as u8) as char);
    }
    if v >= 10 {
        push_char(&mut r, ((48 + (v / 10) % 10) as u8) as char);
    }
    push_char(&mut r, ((48 + v % 10) as u8) as char);
    assert(r@ =~= u8_decimal(v));
    r
}

/// Relies on `char::to_string`: the returned string holds exactly the one
/// character it was made from.
#[verifier::external_body]
fn char_to_string(c: char) -> (r: String)
    ensures
        r@ == seq![c],
{
    c.to_string()
}

/// Appends one character to a string.
pub fn push_char(s: &mut String, c: char)
    ensures
        final(s)@ == old(s)@.push(c),
{
    let t = char_to_string(c);
    s.append(t.as_str());
    assert(old(s)@ + seq![c] =~= old(s)@.push(c));
}

/// A copy of `s` with every ASCII letter uppercased.
pub fn to_ascii_upper(s: &str) -> (r: String)
    ensures
        r@ == upper(s@),
{
    let n = s.unicode_len();
    let mut r = String::new();
    let mut i: usize = 0;
    while i < n
        invariant
            n == s@.len(),
            i <= n,
            r@.len() == i,
            forall|j: int| 0 <= j < i ==> r@[j] == upper_char(s@[j]),
        decreases n - i,
    {
        let c = s.get_char(i);
        push_char(&mut r, upper_char_exec(c));
        i += 1;
    }
    assert(r@ =~= upper(s@));
    r
}

/// A copy of `s` with every ASCII letter lowercased.
pub fn to_ascii_lower(s: &str) -> (r: String)
    ensures
        r@ == lower(s@),
{
    let n = s.unicode_len();
    let mut r = String::new();
    let mut i: usize = 0;
    while i < n
        invariant
            n == s@.len(),
            i <= n,
            r@.len() == i,
            forall|j: int| 0 <= j < i ==> r@[j] == lower_char(s@[j]),
        decreases n - i,
    {
        let c = s.get_char(i);
        push_char(&mut r, lower_char_exec(c));
        i += 1;
    }
    assert(r@ =~= lower(s@));
    r
}

} // verus!
