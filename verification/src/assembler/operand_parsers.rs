//! Parsers for the three operand forms — register, integer immediate, and
//! single-quoted string — and the combined operand alternative that tries
//! them in that order and then consumes trailing whitespace.

use vstd::prelude::*;

use crate::assembler::register_parsers::{register_parser, spec_register_parser};
use crate::assembler::text::{
    digits_end, parse_decimal, quote_pos, skip_spaces, spec_digits_end, spec_digits_value,
    spec_quote_pos, spec_skip_spaces,
};
use crate::assembler::{Token, TokenModel};

verus! {

/// The integer-operand grammar at `pos`: `#` then at least one digit, whose
/// decimal value fits a signed 32-bit integer.
pub open spec fn spec_value_parser(s: Seq<char>, pos: int) -> Option<(TokenModel, int)> {
    if 0 <= pos < s.len() && s[pos] == '#' {
        let e = spec_digits_end(s, pos + 1);
        if e > pos + 1 && spec_digits_value(s, pos + 1, e) <= i32::MAX {
            Some((TokenModel::IntegerOperand { value: spec_digits_value(s, pos + 1, e) as i32 }, e))
        } else {
            None
        }
    } else {
        None
    }
}

/// The string-operand grammar at `pos`: single-quote-delimited text with no
/// escape processing, at least one character long, ended at the first
/// closing quote.
pub open spec fn spec_string_parser(s: Seq<char>, pos: int) -> Option<(TokenModel, int)> {
    if 0 <= pos < s.len() && s[pos] == '\'' {
        let q = spec_quote_pos(s, pos + 1);
        if q < s.len() && q > pos + 1 {
            Some((TokenModel::Str { value: s.subrange(pos + 1, q) }, q + 1))
        } else {
            None
        }
    } else {
        None
    }
}

/// One operand: the first of register, integer and string form to match,
/// with trailing whitespace consumed.
pub open spec fn spec_operand_parser(s: Seq<char>, pos: int) -> Option<(TokenModel, int)> {
    match spec_register_parser(s, pos) {
        Some(tp) => Some((tp.0, spec_skip_spaces(s, tp.1))),
        None => match spec_value_parser(s, pos) {
            Some(tp) => Some((tp.0, spec_skip_spaces(s, tp.1))),
            None => match spec_string_parser(s, pos) {
                Some(tp) => Some((tp.0, spec_skip_spaces(s, tp.1))),
                None => None,
            },
        },
    }
}

/// Parses an integer operand at `pos`.
pub fn value_parser(input: &str, pos: usize) -> (r: Option<(Token, usize)>)
    requires
        pos <= input@.len(),
    ensures
        ({
            let m = spec_value_parser(input@, pos as int);
            match r {
                Some(tp) => m == Some((tp.0@, tp.1 as int)) && pos < tp.1 <= input@.len(),
                None => m is None,
            }
        }),
{
    let n = input.unicode_len();
    if pos < n && input.get_char(pos) == '#' {
        let e = digits_end(input, pos + 1);
        if e > pos + 1 {
            proof {
                crate::assembler::text::lemma_digits_value_monotonic(
                    input@,
                    pos + 1 as int,
                    pos + 1 as int,
                    e as int,
                );
            }
            match parse_decimal(input, pos + 1, e, 0x7fff_ffff) {
                Some(v) => Some((Token::IntegerOperand { value: v as i32 }, e)),
                None => None,
            }
        } else {
            None
        }
    } else {
        None
    }
}

/// Parses a string operand at `pos`.
pub fn string_parser(input: &str, pos: usize) -> (r: Option<(Token, usize)>)
    requires
        pos <= input@.len(),
    ensures
        ({
            let m = spec_string_parser(input@, pos as int);
            match r {
                Some(tp) => m == Some((tp.0@, tp.1 as int)) && pos < tp.1 <= input@.len(),
                None => m is None,
            }
        }),
{
    let n = input.unicode_len();
    if pos < n && input.get_char(pos) == '\'' {
        let q = quote_pos(input, pos + 1);
        if q < n && q > pos + 1 {
            let value = input.substring_char(pos + 1, q).to_owned();
            Some((Token::Str { value }, q + 1))
        } else {
            None
        }
    } else {
        None
    }
}

/// Parses one operand at `pos`: register, integer or string form, then
/// trailing whitespace.
pub fn operand_parser(input: &str, pos: usize) -> (r: Option<(Token, usize)>)
    requires
        pos <= input@.len(),
    ensures
        ({
            let m = spec_operand_parser(input@, pos as int);
            match r {
                Some(tp) => m == Some((tp.0@, tp.1 as int)) && pos < tp.1 <= input@.len(),
                None => m is None,
            }
        }),
{
    match register_parser(input, pos) {
        Some((t, p)) => {
            let p2 = skip_spaces(input, p);
            return Some((t, p2));
        },
        None => (),
    }
    match value_parser(input, pos) {
        Some((t, p)) => {
            let p2 = skip_spaces(input, p);
            return Some((t, p2));
        },
        None => (),
    }
    match string_parser(input, pos) {
        Some((t, p)) => {
            let p2 = skip_spaces(input, p);
            Some((t, p2))
        },
        None => None,
    }
}

} // verus!
