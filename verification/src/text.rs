//! Decimal rendering of page numbers, and sequences of page links.
use vstd::prelude::*;
use crate::parse::{all_digits, digit_value, digits_value, is_digit};

verus! {

/// The text of a single decimal digit.
pub open spec fn digit_text(d: nat) -> Seq<char> {
    if d == 0 {
        "0"@
    } else if d == 1 {
        "1"@
    } else if d == 2 {
        "2"@
    } else if d == 3 {
        "3"@
    } else if d == 4 {
        "4"@
    } else if d == 5 {
        "5"@
    } else if d == 6 {
        "6"@
    } else if d == 7 {
        "7"@
    } else if d == 8 {
        "8"@
    } else {
        "9"@
    }
}

/// The decimal text of `n`, as `Display` writes an unsigned integer: no sign,
/// no leading zeros.
pub open spec fn decimal_text(n: nat) -> Seq<char>
    decreases n,
{
    if n < 10 {
        digit_text(n)
    } else {
        decimal_text(n / 10) + digit_text(n % 10)
    }
}

/// The text of a digit is that one digit character.
proof fn lemma_digit_text_denotes(d: nat)
    requires
        d < 10,
    ensures
        digit_text(d).len() == 1,
        is_digit(digit_text(d)[0]),
        digit_value(digit_text(d)[0]) == d,
{
    reveal_strlit("0");
    reveal_strlit("1");
    reveal_strlit("2");
    reveal_strlit("3");
    reveal_strlit("4");
    reveal_strlit("5");
    reveal_strlit("6");
    reveal_strlit("7");
    reveal_strlit("8");
    reveal_strlit("9");
}

/// The decimal text of `n` is a nonempty string of digits that denotes `n`,
/// with no leading zero unless `n` is zero.
pub proof fn lemma_decimal_text_denotes(n: nat)
    ensures
        decimal_text(n).len() >= 1,
        all_digits(decimal_text(n)),
        digits_value(decimal_text(n)) == n,
        n >= 1 ==> decimal_text(n)[0] != '0',
    decreases n,
{
    if n < 10 {
        lemma_digit_text_denotes(n);
        let s = decimal_text(n);
        assert(s.drop_last() =~= Seq::<char>::empty());
        assert(digits_value(s) == digits_value(s.drop_last()) * 10 + digit_value(s.last()));
    } else {
        lemma_decimal_text_denotes(n / 10);
        lemma_digit_text_denotes(n % 10);
        let s = decimal_text(n);
        let high = decimal_text(n / 10);
        let low = digit_text(n % 10);
        assert(s == high + low);
        assert(s.drop_last() =~= high);
        assert(s.last() == low[0]);
        assert forall|k: int| 0 <= k < s.len() implies is_digit(#[trigger] s[k]) by {
            if k < high.len() {
                assert(s[k] == high[k]);
            } else {
                assert(s[k] == low[0]);
            }
        }
        assert(digits_value(s) == digits_value(high) * 10 + digit_value(low[0]));
        assert(n == (n / 10) * 10 + n % 10);
        assert(s[0] == high[0]);
    }
}

/// `t` is a prefix of `s`.
pub open spec fn starts_with(s: Seq<char>, t: Seq<char>) -> bool {
    t.len() <= s.len() && s.subrange(0, t.len() as int) == t
}

/// `t` is a suffix of `s`.
pub open spec fn ends_with(s: Seq<char>, t: Seq<char>) -> bool {
    t.len() <= s.len() && s.subrange(s.len() - t.len(), s.len() as int) == t
}

/// `t` occurs in `s` starting at position `k`.
pub open spec fn occurs_at(s: Seq<char>, t: Seq<char>, k: int) -> bool {
    0 <= k && k + t.len() <= s.len() && s.subrange(k, k + t.len()) == t
}

/// `t` occurs somewhere in `s`.
pub open spec fn contains_text(s: Seq<char>, t: Seq<char>) -> bool {
    exists|k: int| #[trigger] occurs_at(s, t, k)
}

/// A text placed between two others occurs in their concatenation, right
/// after the first; it is a prefix of what it starts and a suffix of what
/// it ends.
pub proof fn lemma_text_between(a: Seq<char>, t: Seq<char>, b: Seq<char>)
    ensures
        occurs_at(a + t + b, t, a.len() as int),
        contains_text(a + t + b, t),
        starts_with(t + b, t),
        ends_with(a + t, t),
{
    assert((a + t + b).subrange(a.len() as int, (a.len() + t.len()) as int) =~= t);
    assert((t + b).subrange(0, t.len() as int) =~= t);
    assert((a + t).subrange(a.len() as int, (a + t).len() as int) =~= t);
}

/// A text whose `j`-th character differs from that of `t` does not start
/// with `t`, whatever follows it.
pub proof fn lemma_starts_differently(p: Seq<char>, b: Seq<char>, t: Seq<char>, j: int)
    requires
        0 <= j < p.len(),
        j < t.len(),
        p[j] != t[j],
    ensures
        !starts_with(p + b, t),
{
    if starts_with(p + b, t) {
        assert((p + b).subrange(0, t.len() as int)[j] == (p + b)[j]);
    }
}

/// The concatenation `item(1) + item(2) + ... + item(n)`.
pub open spec fn concat_pages(n: nat, item: spec_fn(nat) -> Seq<char>) -> Seq<char>
    decreases n,
{
    if n == 0 {
        Seq::empty()
    } else {
        concat_pages((n - 1) as nat, item) + item(n)
    }
}

/// Appending the next page's item extends the concatenation by one page.
pub proof fn lemma_concat_pages_step(head: Seq<char>, n: nat, item: spec_fn(nat) -> Seq<char>)
    requires
        n >= 1,
    ensures
        head + concat_pages((n - 1) as nat, item) + item(n) == head + concat_pages(n, item),
{
    assert(head + concat_pages((n - 1) as nat, item) + item(n) =~= head + concat_pages(n, item));
}

fn digit_str(d: usize) -> (r: &'static str)
    requires
        d < 10,
    ensures
        r@ == digit_text(d as nat),
{
    if d == 0 {
        "0"
    } else if d == 1 {
        "1"
    } else if d == 2 {
        "2"
    } else if d == 3 {
        "3"
    } else if d == 4 {
        "4"
    } else if d == 5 {
        "5"
    } else if d == 6 {
        "6"
    } else if d == 7 {
        "7"
    } else if d == 8 {
        "8"
    } else {
        "9"
    }
}

/// Renders `n` in decimal.
pub fn decimal(n: usize) -> (r: String)
    ensures
        r@ == decimal_text(n as nat),
    decreases n,
{
    if n < 10 {
        String::from_str(digit_str(n))
    } else {
        let mut s = decimal(n / 10);
        s.append(digit_str(n % 10));
        s
    }
}

/// Appends the decimal text of `n` to `s`.
pub fn push_decimal(s: &mut String, n: usize)
    ensures
        final(s)@ == old(s)@ + decimal_text(n as nat),
{
    let d = decimal(n);
    s.append(d.as_str());
}

} // verus!
