//! Parser for register operands: `$` followed by digits, read as an
//! unsigned 8-bit register index.

use vstd::prelude::*;

use crate::assembler::text::{digits_end, parse_decimal, spec_digits_end, spec_digits_value};
use crate::assembler::{Token, TokenModel};

verus! {

/// The register-operand grammar at `pos`: `$` then at least one digit, whose
/// decimal value fits an unsigned 8-bit index; the token and the position
/// just past the digits.
pub open spec fn spec_register_parser(s: Seq<char>, pos: int) -> Option<(TokenModel, int)> {
    if 0 <= pos < s.len() && s[pos] == '$' {
        let e = spec_digits_end(s, pos + 1);
        if e > pos + 1 && spec_digits_value(s, pos + 1, e) <= u8::MAX {
            Some((TokenModel::Register { reg_num: spec_digits_value(s, pos + 1, e) as u8 }, e))
        } else {
            None
        }
    } else {
        None
    }
}

/// Parses a register operand at `pos`.
pub fn register_parser(input: &str, pos: usize) -> (r: Option<(Token, usize)>)
    requires
        pos <= input@.len(),
    ensures
        ({
            let m = spec_register_parser(input@, pos as int);
            match r {
                Some(tp) => m == Some((tp.0@, tp.1 as int)) && pos < tp.1 <= input@.len(),
                None => m is None,
            }
        }),
{
    let n = input.unicode_len();
    if pos < n && input.get_char(pos) == '$' {
        let e = digits_end(input, pos + 1);
        if e > pos + 1 {
            proof {
                crate::assembler::text::lemma_digits_value_monotonic(
                    input@,
                    pos + 1 as int,
                    pos + 1 as int,
                    e as int,
                );
            }
            match parse_decimal(input, pos + 1, e, 255) {
                Some(v) => Some((Token::Register { reg_num: v as u8 }, e)),
                None => None,
            }
        } else {
            None
        }
    } else {
        None
    }
}

} // verus!
