//! Parsers for label declarations (`name:`) and label usages (`@name`). A
//! usage is accepted lexically but never resolved into an operand value by
//! this assembler.

use vstd::prelude::*;

use crate::assembler::text::{alnum_end, skip_spaces, spec_alnum_end, spec_skip_spaces};
use crate::assembler::{Token, TokenModel};

verus! {

/// The label-declaration grammar at `pos`: an identifier of letters and
/// digits followed by `:`, then whitespace.
pub open spec fn spec_label_declaration_parser(s: Seq<char>, pos: int) -> Option<(TokenModel, int)> {
    let e = spec_alnum_end(s, pos);
    if e > pos && e < s.len() && s[e] == ':' {
        Some((TokenModel::LabelDeclaration { name: s.subrange(pos, e) }, spec_skip_spaces(s, e + 1)))
    } else {
        None
    }
}

/// The label-usage grammar at `pos`: `@` then an identifier, then
/// whitespace.
pub open spec fn spec_label_usage_parser(s: Seq<char>, pos: int) -> Option<(TokenModel, int)> {
    if 0 <= pos < s.len() && s[pos] == '@' {
        let e = spec_alnum_end(s, pos + 1);
        if e > pos + 1 {
            Some((TokenModel::LabelUsage { name: s.subrange(pos + 1, e) }, spec_skip_spaces(s, e)))
        } else {
            None
        }
    } else {
        None
    }
}

/// Parses a label declaration at `pos`.
pub fn label_declaration_parser(input: &str, pos: usize) -> (r: Option<(Token, usize)>)
    requires
        pos <= input@.len(),
    ensures
        ({
            let m = spec_label_declaration_parser(input@, pos as int);
            match r {
                Some(tp) => m == Some((tp.0@, tp.1 as int)) && pos < tp.1 <= input@.len(),
                None => m is None,
            }
        }),
{
    let n = input.unicode_len();
    let e = alnum_end(input, pos);
    if e > pos && e < n && input.get_char(e) == ':' {
        let name = input.substring_char(pos, e).to_owned();
        let p2 = skip_spaces(input, e + 1);
        Some((Token::LabelDeclaration { name }, p2))
    } else {
        None
    }
}

/// Parses a label usage at `pos`.
pub fn label_usage_parser(input: &str, pos: usize) -> (r: Option<(Token, usize)>)
    requires
        pos <= input@.len(),
    ensures
        ({
            let m = spec_label_usage_parser(input@, pos as int);
            match r {
                Some(tp) => m == Some((tp.0@, tp.1 as int)) && pos < tp.1 <= input@.len(),
                None => m is None,
            }
        }),
{
    let n = input.unicode_len();
    if pos < n && input.get_char(pos) == '@' {
        let e = alnum_end(input, pos + 1);
        if e > pos + 1 {
            let name = input.substring_char(pos + 1, e).to_owned();
            let p2 = skip_spaces(input, e);
            Some((Token::LabelUsage { name }, p2))
        } else {
            None
        }
    } else {
        None
    }
}

} // verus!
