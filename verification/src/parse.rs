//! Parsing the decimal integers that arrive in request paths.
use vstd::prelude::*;
use crate::text::{decimal_text, lemma_decimal_text_denotes};

verus! {

pub open spec fn is_digit(c: char) -> bool {
    '0' <= c && c <= '9'
}

pub open spec fn digit_value(c: char) -> int {
    (c as int) - ('0' as int)
}

/// The value of a string of decimal digits, most significant first.
pub open spec fn digits_value(s: Seq<char>) -> int
    decreases s.len(),
{
    if s.len() == 0 {
        0
    } else {
        digits_value(s.drop_last()) * 10 + digit_value(s.last())
    }
}

pub open spec fn all_digits(s: Seq<char>) -> bool {
    forall|k: int| 0 <= k < s.len() ==> is_digit(#[trigger] s[k])
}

/// Whether the text starts with a sign character.
pub open spec fn has_sign(s: Seq<char>) -> bool {
    s.len() > 0 && (s[0] == '-' || s[0] == '+')
}

/// The digits of the text, after an optional leading sign.
pub open spec fn unsigned_part(s: Seq<char>) -> Seq<char> {
    if has_sign(s) { s.skip(1) } else { s }
}

/// The signed value that the text denotes, when its digits are all digits.
pub open spec fn signed_value(s: Seq<char>) -> int {
    if s.len() > 0 && s[0] == '-' {
        -digits_value(unsigned_part(s))
    } else {
        digits_value(unsigned_part(s))
    }
}

/// What `str::parse::<i32>` gives back: an optional `+` or `-`, then one or
/// more ASCII digits and nothing else, denoting a value in range.
pub open spec fn spec_parse_i32(s: Seq<char>) -> Option<i32> {
    let digits = unsigned_part(s);
    if digits.len() > 0 && all_digits(digits) && i32::MIN <= signed_value(s) <= i32::MAX {
        Some(signed_value(s) as i32)
    } else {
        None
    }
}

proof fn lemma_digits_value_nonneg(s: Seq<char>)
    requires
        all_digits(s),
    ensures
        digits_value(s) >= 0,
    decreases s.len(),
{
    if s.len() > 0 {
        assert(all_digits(s.drop_last()));
        lemma_digits_value_nonneg(s.drop_last());
        assert(is_digit(s[s.len() - 1]));
    }
}

/// The value that saturates once it passes the range of an `i32`.
spec fn capped(v: int) -> int {
    if v > 0x8000_0001 { 0x8000_0001 } else { v }
}

/// A number written in decimal, as the pagination links write page numbers,
/// parses back to itself; with a `-` in front it parses to its negation,
/// and a `+` in front changes nothing.
pub proof fn lemma_parse_decimal_text(n: nat)
    requires
        n <= i32::MAX,
    ensures
        spec_parse_i32(decimal_text(n)) == Some(n as i32),
        spec_parse_i32(seq!['-'] + decimal_text(n)) == Some(-(n as int) as i32),
        spec_parse_i32(seq!['+'] + decimal_text(n)) == Some(n as i32),
{
    lemma_decimal_text_denotes(n);
    let d = decimal_text(n);
    assert(is_digit(d[0]));
    assert(unsigned_part(d) == d);
    let neg = seq!['-'] + d;
    let pos = seq!['+'] + d;
    assert(neg.skip(1) =~= d);
    assert(pos.skip(1) =~= d);
}

/// Parses a decimal `i32` as `str::parse::<i32>` does.
pub fn parse_i32(s: &str) -> (r: Option<i32>)
    ensures
        r == spec_parse_i32(s@),
{
    let len = s.unicode_len();
    let mut start: usize = 0;
    let mut negative = false;
    if len > 0 {
        let c = s.get_char(0);
        if c == '-' {
            negative = true;
            start = 1;
        } else if c == '+' {
            start = 1;
        }
    }
    let ghost digits = unsigned_part(s@);
    assert(digits == s@.skip(start as int));
    if start >= len {
        return None;
    }
    let mut acc: i64 = 0;
    let mut i: usize = start;
    while i < len
        invariant
            start <= i <= len,
            len == s@.len(),
            digits == s@.skip(start as int),
            digits == unsigned_part(s@),
            negative == (s@.len() > 0 && s@[0] == '-'),
            all_digits(digits.take(i - start)),
            acc == capped(digits_value(digits.take(i - start))),
            0 <= acc <= 0x8000_0001,
        decreases len - i,
    {
        let c = s.get_char(i);
        if c < '0' || c > '9' {
            assert(digits[i - start] == c);
            assert(!is_digit(digits[i - start]));
            assert(!all_digits(digits));
            return None;
        }
        let ghost prev = digits.take(i - start);
        let ghost next = digits.take(i - start + 1);
        assert(next.drop_last() =~= prev);
        assert(next.last() == c);
        proof {
            lemma_digits_value_nonneg(prev);
        }
        let d = (c as u32 - '0' as u32) as i64;
        acc = acc * 10 + d;
        if acc > 0x8000_0001 {
            acc = 0x8000_0001;
        }
        i = i + 1;
        assert(all_digits(next));
    }
    assert(digits.take(len - start) =~= digits);
    if acc > 0x8000_0000 {
        return None;
    }
    if negative {
        Some((-acc) as i32)
    } else if acc > 0x7fff_ffff {
        None
    } else {
        Some(acc as i32)
    }
}

/// An id from a request path: its value as `str::parse::<i32>` reads it, or
/// zero when it does not parse.
pub fn parse_i32_or_default(s: &str) -> (r: i32)
    ensures
        r == match spec_parse_i32(s@) {
            Some(v) => v,
            None => 0,
        },
{
    match parse_i32(s) {
        Some(v) => v,
        None => 0,
    }
}

} // verus!
