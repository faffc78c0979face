//! State consumed by the interactive shell: the machine it drives, the
//! history of entered commands, and the legacy hex-pair reader for raw
//! bytecode lines. The shell's input loop itself is I/O and lives outside
//! this library.

use vstd::prelude::*;

use crate::assembler::text::is_digit_char;
use crate::vm::VM;

verus! {

/// Value of one hexadecimal digit, upper or lower case.
pub open spec fn spec_hex_digit_val(c: char) -> int {
    if is_digit_char(c) {
        c as int - '0' as int
    } else if 'a' <= c && c <= 'f' {
        c as int - 'a' as int + 10
    } else if 'A' <= c && c <= 'F' {
        c as int - 'A' as int + 10
    } else {
        -1
    }
}

/// Whether the character is a hexadecimal digit.
pub open spec fn is_hex_digit_char(c: char) -> bool {
    spec_hex_digit_val(c) >= 0
}

/// First position at or after `pos` holding a space; the sequence's length
/// when there is none.
pub open spec fn spec_space_pos(s: Seq<char>, pos: int) -> int
    decreases s.len() - pos,
{
    if 0 <= pos < s.len() && s[pos] != ' ' {
        spec_space_pos(s, pos + 1)
    } else {
        pos
    }
}

/// Value of the hexadecimal digits in `s[start..end)`.
pub open spec fn spec_hex_value(s: Seq<char>, start: int, end: int) -> int
    decreases end - start,
{
    if start >= end {
        0
    } else {
        spec_hex_value(s, start, end - 1) * 16 + spec_hex_digit_val(s[end - 1])
    }
}

/// A hex run's value is non-negative and grows (weakly) with its length.
pub proof fn lemma_hex_value_monotonic(s: Seq<char>, start: int, mid: int, end: int)
    requires
        start <= mid <= end <= s.len(),
        0 <= start,
        forall|i: int| start <= i < end ==> is_hex_digit_char(#[trigger] s[i]),
    ensures
        0 <= spec_hex_value(s, start, mid) <= spec_hex_value(s, start, end),
    decreases end - start,
{
    if mid < end {
        lemma_hex_value_monotonic(s, start, mid, end - 1);
    } else if start < mid {
        lemma_hex_value_monotonic(s, start, start, mid - 1);
    }
}

/// One space-separated token read as a hexadecimal byte, then the rest: the
/// grammar of a raw bytecode line. A token must be non-empty, all hex
/// digits, and no larger than one byte.
pub open spec fn spec_parse_hex_from(s: Seq<char>, pos: int) -> Option<Seq<u8>>
    decreases s.len() - pos,
{
    let e = spec_space_pos(s, pos);
    if !(pos < e && (forall|i: int| pos <= i < e ==> is_hex_digit_char(#[trigger] s[i]))
        && spec_hex_value(s, pos, e) <= 255) {
        None
    } else {
        let b = spec_hex_value(s, pos, e) as u8;
        if e >= s.len() {
            Some(seq![b])
        } else {
            match spec_parse_hex_from(s, e + 1) {
                Some(rest) => Some(seq![b] + rest),
                None => None,
            }
        }
    }
}

/// The shell's state: the machine it drives and the history of commands.
pub struct REPL {
    pub command_buffer: Vec<String>,
    pub vm: VM,
}

impl REPL {
    /// A fresh shell around a fresh machine.
    pub fn new() -> (r: REPL)
        ensures
            r.command_buffer@ == Seq::<String>::empty(),
            r.vm@.registers == Seq::new(32, |i: int| 0i32),
            r.vm@.pc == 0,
            r.vm@.program == Seq::<u8>::empty(),
            r.vm@.remainder == 0,
            r.vm@.equal_flag == false,
            r.vm@.heap == Seq::<u8>::empty(),
    {
        REPL { vm: VM::new(), command_buffer: Vec::new() }
    }

    /// Reads a line of space-separated hexadecimal byte pairs as raw
    /// bytecode; `None` when any token is empty, holds a non-hex character,
    /// or exceeds one byte.
    pub fn parse_hex(&mut self, i: &str) -> (r: Option<Vec<u8>>)
        ensures
            ({
                let m = spec_parse_hex_from(i@, 0);
                match r {
                    Some(v) => m == Some(v@),
                    None => m is None,
                }
            }),
    {
        let n = i.unicode_len();
        let mut out: Vec<u8> = Vec::new();
        let mut pos: usize = 0;
        proof {
            match spec_parse_hex_from(i@, 0) {
                Some(bs) => {
                    assert(out@ + bs =~= bs);
                },
                None => {},
            }
        }
        loop
            invariant
                pos <= n,
                n == i@.len(),
                ({
                    let whole = spec_parse_hex_from(i@, 0);
                    let rest = spec_parse_hex_from(i@, pos as int);
                    match rest {
                        Some(bs) => whole matches Some(w) && w == out@ + bs,
                        None => whole is None,
                    }
                }),
            decreases n - pos,
        {
            let e = space_pos(i, pos);
            if e == pos {
                return None;
            }
            let mut val: u32 = 0;
            let mut k = pos;
            while k < e
                invariant
                    pos <= k <= e <= n,
                    pos < e,
                    n == i@.len(),
                    e == spec_space_pos(i@, pos as int),
                    forall|j: int| pos <= j < k ==> is_hex_digit_char(#[trigger] i@[j]),
                    val == spec_hex_value(i@, pos as int, k as int),
                    val <= 255,
                    ({
                        let whole = spec_parse_hex_from(i@, 0);
                        let rest = spec_parse_hex_from(i@, pos as int);
                        match rest {
                            Some(bs) => whole matches Some(w) && w == out@ + bs,
                            None => whole is None,
                        }
                    }),
                decreases e - k,
            {
                let c = i.get_char(k);
                let cu = c as u32;
                let d: u32 = if 48 <= cu && cu <= 57 {
                    cu - 48
                } else if 97 <= cu && cu <= 102 {
                    cu - 97 + 10
                } else if 65 <= cu && cu <= 70 {
                    cu - 65 + 10
                } else {
                    proof {
                        assert(!is_hex_digit_char(i@[k as int]));
                    }
                    return None;
                };
                proof {
                    assert(d == spec_hex_digit_val(i@[k as int]));
                }
                val = val * 16 + d;
                k = k + 1;
                if val > 255 {
                    proof {
                        if forall|j: int| pos <= j < e ==> is_hex_digit_char(#[trigger] i@[j]) {
                            lemma_hex_value_monotonic(i@, pos as int, k as int, e as int);
                        }
                    }
                    return None;
                }
            }
            let ghost prev_out = out@;
            out.push(val as u8);
            if e >= n {
                proof {
                    assert(out@ =~= prev_out + seq![val as u8]);
                }
                return Some(out);
            }
            pos = e + 1;
            proof {
                assert(out@ =~= prev_out + seq![val as u8]);
                match spec_parse_hex_from(i@, pos as int) {
                    Some(bs) => {
                        assert(out@ + bs =~= prev_out + (seq![val as u8] + bs));
                    },
                    None => {},
                }
            }
        }
    }
}

impl core::default::Default for REPL {
    /// Same as [`REPL::new`]: a fresh shell around a fresh machine.
    fn default() -> (r: REPL)
        ensures
            r.command_buffer@ == Seq::<String>::empty(),
            r.vm@.pc == 0,
            r.vm@.program == Seq::<u8>::empty(),
    {
        REPL::new()
    }
}

/// Scans to the first space at or after `pos`.
fn space_pos(s: &str, pos: usize) -> (r: usize)
    requires
        pos <= s@.len(),
    ensures
        r == spec_space_pos(s@, pos as int),
        pos <= r <= s@.len(),
{
    let n = s.unicode_len();
    let mut p = pos;
    while p < n
        invariant
            pos <= p <= n,
            n == s@.len(),
            spec_space_pos(s@, pos as int) == spec_space_pos(s@, p as int),
        decreases n - p,
    {
        let c = s.get_char(p);
        if c == ' ' {
            return p;
        }
        p = p + 1;
    }
    p
}

} // verus!
