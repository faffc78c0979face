//! Character-level scanning shared by the parsers: the character classes of
//! the grammar, runs of a class, decimal values, and string equality.
//! Everything here is verified; the specification functions double as the
//! lexical part of the grammar's definition.

use vstd::prelude::*;

verus! {

/// Whitespace as the grammar knows it: space, tab, newline, carriage return.
pub open spec fn is_space_char(c: char) -> bool {
    c == ' ' || c == '\t' || c == '\n' || c == '\r'
}

/// An ASCII decimal digit.
pub open spec fn is_digit_char(c: char) -> bool {
    '0' <= c && c <= '9'
}

/// An ASCII letter.
pub open spec fn is_alpha_char(c: char) -> bool {
    ('a' <= c && c <= 'z') || ('A' <= c && c <= 'Z')
}

/// An ASCII letter or digit.
pub open spec fn is_alnum_char(c: char) -> bool {
    is_alpha_char(c) || is_digit_char(c)
}

/// First position at or after `pos` that does not hold whitespace.
pub open spec fn spec_skip_spaces(s: Seq<char>, pos: int) -> int
    decreases s.len() - pos,
{
    if 0 <= pos < s.len() && is_space_char(s[pos]) {
        spec_skip_spaces(s, pos + 1)
    } else {
        pos
    }
}

/// End of the run of decimal digits starting at `pos`.
pub open spec fn spec_digits_end(s: Seq<char>, pos: int) -> int
    decreases s.len() - pos,
{
    if 0 <= pos < s.len() && is_digit_char(s[pos]) {
        spec_digits_end(s, pos + 1)
    } else {
        pos
    }
}

/// End of the run of letters starting at `pos`.
pub open spec fn spec_alpha_end(s: Seq<char>, pos: int) -> int
    decreases s.len() - pos,
{
    if 0 <= pos < s.len() && is_alpha_char(s[pos]) {
        spec_alpha_end(s, pos + 1)
    } else {
        pos
    }
}

/// End of the run of letters and digits starting at `pos`.
pub open spec fn spec_alnum_end(s: Seq<char>, pos: int) -> int
    decreases s.len() - pos,
{
    if 0 <= pos < s.len() && is_alnum_char(s[pos]) {
        spec_alnum_end(s, pos + 1)
    } else {
        pos
    }
}

/// First position at or after `pos` holding a single quote; the sequence's
/// length when there is none.
pub open spec fn spec_quote_pos(s: Seq<char>, pos: int) -> int
    decreases s.len() - pos,
{
    if 0 <= pos < s.len() && s[pos] != '\'' {
        spec_quote_pos(s, pos + 1)
    } else {
        pos
    }
}

/// Numeric value of the digits in `s[start..end)`, read in base ten.
pub open spec fn spec_digits_value(s: Seq<char>, start: int, end: int) -> int
    decreases end - start,
{
    if start >= end {
        0
    } else {
        spec_digits_value(s, start, end - 1) * 10 + (s[end - 1] as int - '0' as int)
    }
}

/// A digit run's value is non-negative and grows (weakly) with its length.
pub proof fn lemma_digits_value_monotonic(s: Seq<char>, start: int, mid: int, end: int)
    requires
        start <= mid <= end <= s.len(),
        0 <= start,
        forall|i: int| start <= i < end ==> is_digit_char(#[trigger] s[i]),
    ensures
        0 <= spec_digits_value(s, start, mid) <= spec_digits_value(s, start, end),
    decreases end - start,
{
    if mid < end {
        lemma_digits_value_monotonic(s, start, mid, end - 1);
    } else if start < mid {
        lemma_digits_value_monotonic(s, start, start, mid - 1);
    }
}

/// Scans past whitespace.
pub fn skip_spaces(s: &str, pos: usize) -> (r: usize)
    requires
        pos <= s@.len(),
    ensures
        r == spec_skip_spaces(s@, pos as int),
        pos <= r <= s@.len(),
{
    let n = s.unicode_len();
    let mut p = pos;
    while p < n
        invariant
            pos <= p <= n,
            n == s@.len(),
            spec_skip_spaces(s@, pos as int) == spec_skip_spaces(s@, p as int),
        decreases n - p,
    {
        let c = s.get_char(p);
        if !(c == ' ' || c == '\t' || c == '\n' || c == '\r') {
            return p;
        }
        p = p + 1;
    }
    p
}

/// Scans to the end of the digit run starting at `pos`.
pub fn digits_end(s: &str, pos: usize) -> (r: usize)
    requires
        pos <= s@.len(),
    ensures
        r == spec_digits_end(s@, pos as int),
        pos <= r <= s@.len(),
        forall|i: int| pos <= i < r ==> is_digit_char(#[trigger] s@[i]),
{
    let n = s.unicode_len();
    let mut p = pos;
    while p < n
        invariant
            pos <= p <= n,
            n == s@.len(),
            spec_digits_end(s@, pos as int) == spec_digits_end(s@, p as int),
            forall|i: int| pos <= i < p ==> is_digit_char(#[trigger] s@[i]),
        decreases n - p,
    {
        let c = s.get_char(p);
        if !('0' <= c && c <= '9') {
            return p;
        }
        p = p + 1;
    }
    p
}

/// Scans to the end of the letter run starting at `pos`.
pub fn alpha_end(s: &str, pos: usize) -> (r: usize)
    requires
        pos <= s@.len(),
    ensures
        r == spec_alpha_end(s@, pos as int),
        pos <= r <= s@.len(),
{
    let n = s.unicode_len();
    let mut p = pos;
    while p < n
        invariant
            pos <= p <= n,
            n == s@.len(),
            spec_alpha_end(s@, pos as int) == spec_alpha_end(s@, p as int),
        decreases n - p,
    {
        let c = s.get_char(p);
        if !(('a' <= c && c <= 'z') || ('A' <= c && c <= 'Z')) {
            return p;
        }
        p = p + 1;
    }
    p
}

/// Scans to the end of the letter-or-digit run starting at `pos`.
pub fn alnum_end(s: &str, pos: usize) -> (r: usize)
    requires
        pos <= s@.len(),
    ensures
        r == spec_alnum_end(s@, pos as int),
        pos <= r <= s@.len(),
{
    let n = s.unicode_len();
    let mut p = pos;
    while p < n
        invariant
            pos <= p <= n,
            n == s@.len(),
            spec_alnum_end(s@, pos as int) == spec_alnum_end(s@, p as int),
        decreases n - p,
    {
        let c = s.get_char(p);
        if !(('a' <= c && c <= 'z') || ('A' <= c && c <= 'Z') || ('0' <= c && c <= '9')) {
            return p;
        }
        p = p + 1;
    }
    p
}

/// Scans to the first single quote at or after `pos`.
pub fn quote_pos(s: &str, pos: usize) -> (r: usize)
    requires
        pos <= s@.len(),
    ensures
        r == spec_quote_pos(s@, pos as int),
        pos <= r <= s@.len(),
{
    let n = s.unicode_len();
    let mut p = pos;
    while p < n
        invariant
            pos <= p <= n,
            n == s@.len(),
            spec_quote_pos(s@, pos as int) == spec_quote_pos(s@, p as int),
        decreases n - p,
    {
        let c = s.get_char(p);
        if c == '\'' {
            return p;
        }
        p = p + 1;
    }
    p
}

/// Reads the decimal value of the digits in `s[start..end)`; `None` when the
/// value exceeds `max`.
pub fn parse_decimal(s: &str, start: usize, end: usize, max: u32) -> (r: Option<u32>)
    requires
        start < end <= s@.len(),
        forall|i: int| start <= i < end ==> is_digit_char(#[trigger] s@[i]),
    ensures
        spec_digits_value(s@, start as int, end as int) <= max ==> r == Some(
            spec_digits_value(s@, start as int, end as int) as u32,
        ),
        spec_digits_value(s@, start as int, end as int) > max ==> r == None::<u32>,
{
    let mut acc: u64 = 0;
    let mut p = start;
    while p < end
        invariant
            start <= p <= end <= s@.len(),
            forall|i: int| start <= i < end ==> is_digit_char(#[trigger] s@[i]),
            acc == spec_digits_value(s@, start as int, p as int),
            acc <= max,
            max <= u32::MAX,
        decreases end - p,
    {
        let c = s.get_char(p);
        let d: u64 = (c as u32 as u64) - 48;
        acc = acc * 10 + d;
        p = p + 1;
        if acc > max as u64 {
            proof {
                lemma_digits_value_monotonic(s@, start as int, p as int, end as int);
            }
            return None;
        }
    }
    proof {
        lemma_digits_value_monotonic(s@, start as int, start as int, end as int);
    }
    Some(acc as u32)
}

/// Character-for-character string equality.
pub fn str_eq(a: &str, b: &str) -> (r: bool)
    ensures
        r == (a@ == b@),
{
    let n = a.unicode_len();
    if n != b.unicode_len() {
        return false;
    }
    for i in 0..n
        invariant
            n == a@.len(),
            n == b@.len(),
            forall|j: int| 0 <= j < i ==> a@[j] == #[trigger] b@[j],
    {
        if a.get_char(i) != b.get_char(i) {
            return false;
        }
    }
    proof {
        assert(a@ =~= b@);
    }
    true
}

} // verus!
