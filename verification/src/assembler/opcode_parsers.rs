//! Parser for opcode mnemonics: a word of letters, resolved
//! case-insensitively against the opcode enumeration, with unrecognized
//! mnemonics resolving to the `IGL` sentinel rather than failing the parse.

use vstd::prelude::*;

use crate::assembler::text::{alpha_end, skip_spaces, spec_alpha_end, spec_skip_spaces};
use crate::assembler::{Token, TokenModel};
use crate::instruction::{spec_opcode_of_mnemonic, Opcode};

verus! {

/// The opcode grammar at `pos`: at least one letter, then whitespace; the
/// word resolves through [`spec_opcode_of_mnemonic`].
pub open spec fn spec_opcode_parser(s: Seq<char>, pos: int) -> Option<(TokenModel, int)> {
    let e = spec_alpha_end(s, pos);
    if e > pos {
        Some((TokenModel::Op { code: spec_opcode_of_mnemonic(s.subrange(pos, e)) }, spec_skip_spaces(s, e)))
    } else {
        None
    }
}

/// Parses an opcode mnemonic at `pos`.
pub fn opcode_parser(input: &str, pos: usize) -> (r: Option<(Token, usize)>)
    requires
        pos <= input@.len(),
    ensures
        ({
            let m = spec_opcode_parser(input@, pos as int);
            match r {
                Some(tp) => m == Some((tp.0@, tp.1 as int)) && pos < tp.1 <= input@.len(),
                None => m is None,
            }
        }),
{
    let e = alpha_end(input, pos);
    if e > pos {
        let word = input.substring_char(pos, e);
        let code = Opcode::from(word);
        let p2 = skip_spaces(input, e);
        Some((Token::Op { code }, p2))
    } else {
        None
    }
}

} // verus!
