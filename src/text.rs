//! Decimal integer text: reading a literal and writing one back.

use vstd::prelude::*;
use vstd::string::*;

verus! {

/// The character of a decimal digit `d < 10`.
pub open spec fn digit_char(d: nat) -> char {
    ((d + 48) as u8) as char
}

/// Whether `c` is one of `0` to `9`.
pub open spec fn is_digit(c: char) -> bool {
    '0' <= c && c <= '9'
}

/// The value of a run of decimal digits, most significant first.
pub open spec fn digits_value(s: Seq<char>) -> nat
    decreases s.len(),
{
    if s.len() == 0 {
        0
    } else {
        digits_value(s.drop_last()) * 10 + ((s.last() as nat) - 48) as nat
    }
}

/// The decimal digits of `n`, without leading zeros.
pub open spec fn nat_digits(n: nat) -> Seq<char>
    decreases n,
{
    if n < 10 {
        seq![digit_char(n)]
    } else {
        nat_digits(n / 10) + seq![digit_char(n % 10)]
    }
}

/// The decimal text of `v`, with a leading `-` when negative.
pub open spec fn decimal_text(v: int) -> Seq<char> {
    if v < 0 {
        seq!['-'] + nat_digits((-v) as nat)
    } else {
        nat_digits(v as nat)
    }
}

/// The signed 32-bit value that `s` spells: an optional `+` or `-`, then at
/// least one decimal digit, and nothing else; `None` where `s` is not of
/// that form or the value does not fit.
pub open spec fn i32_of_text(s: Seq<char>) -> Option<i32> {
    let signed = s.len() > 0 && (s[0] == '-' || s[0] == '+');
    let digits = if signed { s.drop_first() } else { s };
    let neg = s.len() > 0 && s[0] == '-';
    let v: int = if neg { -(digits_value(digits) as int) } else { digits_value(digits) as int };
    if digits.len() == 0 || !(forall|i: int| 0 <= i < digits.len() ==> is_digit(#[trigger] digits[i])) {
        None
    } else if i32::MIN <= v <= i32::MAX {
        Some(v as i32)
    } else {
        None
    }
}

/// Relies on `<i32 as FromStr>::from_str`: an optional sign followed by
/// decimal digits, an error on anything else or on overflow.
#[verifier::external_body]
pub(crate) fn parse_i32(s: &String) -> (r: Option<i32>)
    ensures
        r == i32_of_text(s@),
{
    s.parse::<i32>().ok()
}

/// Relies on `<i32 as ToString>::to_string`: the decimal text of the value.
#[verifier::external_body]
pub(crate) fn decimal(v: i32) -> (r: String)
    ensures
        r@ == decimal_text(v as int),
{
    v.to_string()
}

/// The words of `s`: its maximal runs of characters other than a space, in
/// order.
pub open spec fn words(s: Seq<char>) -> Seq<Seq<char>>
    decreases s.len(),
{
    if s.len() == 0 {
        Seq::empty()
    } else {
        let p = words(s.drop_last());
        if s.last() == ' ' {
            p
        } else if s.len() >= 2 && s[s.len() - 2] != ' ' {
            p.drop_last().push(p.last().push(s.last()))
        } else {
            p.push(seq![s.last()])
        }
    }
}

/// Splits a space-separated list into its words.
pub fn split_words(s: &String) -> (r: Vec<String>)
    ensures
        r@.map_values(|w: String| w@) == words(s@),
{
    let t = s.as_str();
    let n = t.unicode_len();
    let mut out: Vec<String> = Vec::new();
    let mut start: usize = 0;
    let mut i: usize = 0;
    while i < n
        invariant
            n == s@.len(),
            t@ == s@,
            start <= i <= n,
            start < i ==> s@[i - 1] != ' ',
            start == i ==> i == 0 || s@[i - 1] == ' ',
            words(s@.subrange(0, i as int)) == out@.map_values(|w: String| w@) + (if start < i {
                seq![s@.subrange(start as int, i as int)]
            } else {
                Seq::empty()
            }),
        decreases n - i,
    {
        let c = t.get_char(i);
        let ghost pre = s@.subrange(0, i as int);
        let ghost next = s@.subrange(0, i + 1);
        assert(next.drop_last() =~= pre);
        assert(next.last() == c);
        let ghost before = out@.map_values(|w: String| w@);
        if c == ' ' {
            if start < i {
                let w = String::from_str(t.substring_char(start, i));
                out.push(w);
                assert(out@.map_values(|w: String| w@) =~= before.push(s@.subrange(start as int, i as int)));
            } else {
                assert(out@.map_values(|w: String| w@) =~= before);
            }
            assert(words(next) == words(pre));
            start = i + 1;
        } else {
            if start < i {
                assert(next[next.len() - 2] == s@[i - 1]);
                assert(s@.subrange(start as int, i as int).push(c) =~= s@.subrange(start as int, i + 1));
            } else {
                if i > 0 {
                    assert(next[next.len() - 2] == s@[i - 1]);
                }
                assert(s@.subrange(start as int, i + 1) =~= seq![c]);
            }
            assert(out@.map_values(|w: String| w@) =~= before);
        }
        i += 1;
    }
    if start < n {
        let ghost before = out@.map_values(|w: String| w@);
        let w = String::from_str(t.substring_char(start, n));
        out.push(w);
        assert(out@.map_values(|w: String| w@) =~= before.push(s@.subrange(start as int, n as int)));
    }
    assert(s@.subrange(0, n as int) =~= s@);
    out
}

} // verus!
