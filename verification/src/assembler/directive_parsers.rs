//! Parsers for the directive form of an instruction line: an optional label
//! declaration, a `.`-prefixed directive name, then up to three operands.

use vstd::prelude::*;

use crate::assembler::instruction_parsers::{AssemblerInstruction, InstructionModel};
use crate::assembler::label_parsers::{label_declaration_parser, spec_label_declaration_parser};
use crate::assembler::operand_parsers::{operand_parser, spec_operand_parser};
use crate::assembler::text::{alnum_end, skip_spaces, spec_alnum_end, spec_skip_spaces};
use crate::assembler::{Token, TokenModel};

verus! {

/// The directive-name grammar at `pos`: `.` then an identifier, then
/// whitespace.
pub open spec fn spec_directive_declaration_parser(s: Seq<char>, pos: int) -> Option<
    (TokenModel, int),
> {
    if 0 <= pos < s.len() && s[pos] == '.' {
        let e = spec_alnum_end(s, pos + 1);
        if e > pos + 1 {
            Some((TokenModel::Directive { name: s.subrange(pos + 1, e) }, spec_skip_spaces(s, e)))
        } else {
            None
        }
    } else {
        None
    }
}

/// The directive form at `pos`: optional label declaration, a directive
/// name, then up to three operands, each taken greedily.
pub open spec fn spec_directive_parser(s: Seq<char>, pos: int) -> Option<(InstructionModel, int)> {
    match spec_label_declaration_parser(s, pos) {
        Some(ltp) => spec_directive_after_label(s, ltp.1, Some(ltp.0)),
        None => spec_directive_after_label(s, pos, None),
    }
}

/// The rest of the directive form, once the optional label is settled.
pub open spec fn spec_directive_after_label(
    s: Seq<char>,
    p1: int,
    label: Option<TokenModel>,
) -> Option<(InstructionModel, int)> {
    match spec_directive_declaration_parser(s, p1) {
        None => None,
        Some(dtp) => {
            let o1 = spec_operand_parser(s, dtp.1);
            match o1 {
                None => Some(
                    (
                        InstructionModel {
                            opcode: None,
                            label,
                            directive: Some(dtp.0),
                            operand1: None,
                            operand2: None,
                            operand3: None,
                        },
                        dtp.1,
                    ),
                ),
                Some(tp1) => {
                    let o2 = spec_operand_parser(s, tp1.1);
                    match o2 {
                        None => Some(
                            (
                                InstructionModel {
                                    opcode: None,
                                    label,
                                    directive: Some(dtp.0),
                                    operand1: Some(tp1.0),
                                    operand2: None,
                                    operand3: None,
                                },
                                tp1.1,
                            ),
                        ),
                        Some(tp2) => {
                            let o3 = spec_operand_parser(s, tp2.1);
                            match o3 {
                                None => Some(
                                    (
                                        InstructionModel {
                                            opcode: None,
                                            label,
                                            directive: Some(dtp.0),
                                            operand1: Some(tp1.0),
                                            operand2: Some(tp2.0),
                                            operand3: None,
                                        },
                                        tp2.1,
                                    ),
                                ),
                                Some(tp3) => Some(
                                    (
                                        InstructionModel {
                                            opcode: None,
                                            label,
                                            directive: Some(dtp.0),
                                            operand1: Some(tp1.0),
                                            operand2: Some(tp2.0),
                                            operand3: Some(tp3.0),
                                        },
                                        tp3.1,
                                    ),
                                ),
                            }
                        },
                    }
                },
            }
        },
    }
}

/// Parses a directive name at `pos`.
pub fn directive_declaration_parser(input: &str, pos: usize) -> (r: Option<(Token, usize)>)
    requires
        pos <= input@.len(),
    ensures
        ({
            let m = spec_directive_declaration_parser(input@, pos as int);
            match r {
                Some(tp) => m == Some((tp.0@, tp.1 as int)) && pos < tp.1 <= input@.len(),
                None => m is None,
            }
        }),
{
    let n = input.unicode_len();
    if pos < n && input.get_char(pos) == '.' {
        let e = alnum_end(input, pos + 1);
        if e > pos + 1 {
            let name = input.substring_char(pos + 1, e).to_owned();
            let p2 = skip_spaces(input, e);
            Some((Token::Directive { name }, p2))
        } else {
            None
        }
    } else {
        None
    }
}

/// Parses the directive form at `pos`.
pub fn directive_parser(input: &str, pos: usize) -> (r: Option<(AssemblerInstruction, usize)>)
    requires
        pos <= input@.len(),
    ensures
        ({
            let m = spec_directive_parser(input@, pos as int);
            match r {
                Some(tp) => m == Some((tp.0@, tp.1 as int)) && pos < tp.1 <= input@.len(),
                None => m is None,
            }
        }),
{
    let (label, p1) = match label_declaration_parser(input, pos) {
        Some((t, p)) => (Some(t), p),
        None => (None, pos),
    };
    let (directive, p2) = match directive_declaration_parser(input, p1) {
        Some(tp) => tp,
        None => { return None; },
    };
    let (o1, p3) = match operand_parser(input, p2) {
        Some((t, p)) => (Some(t), p),
        None => (None, p2),
    };
    let (o2, p4) = match operand_parser(input, p3) {
        Some((t, p)) => (Some(t), p),
        None => (None, p3),
    };
    let (o3, p5) = match operand_parser(input, p4) {
        Some((t, p)) => (Some(t), p),
        None => (None, p4),
    };
    Some(
        (
            AssemblerInstruction {
                opcode: None,
                label,
                directive: Some(directive),
                operand1: o1,
                operand2: o2,
                operand3: o3,
            },
            p5,
        ),
    )
}

} // verus!
