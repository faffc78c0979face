//! One parsed line of assembly: the instruction record, its accessors, its
//! binary encoding, and the parser for the combined instruction form
//! (optional label, mnemonic, up to three operands).

use vstd::prelude::*;

use crate::assembler::directive_parsers::{directive_parser, spec_directive_parser};
use crate::assembler::label_parsers::{label_declaration_parser, spec_label_declaration_parser};
use crate::assembler::opcode_parsers::{opcode_parser, spec_opcode_parser};
use crate::assembler::operand_parsers::{operand_parser, spec_operand_parser};
use crate::assembler::{spec_opt_token, Token, TokenModel};
use crate::instruction::spec_opcode_code;

verus! {

/// One parsed line: exactly one of opcode-bearing or directive-bearing, with
/// an optional label declaration and up to three operand tokens.
#[derive(Debug, PartialEq)]
pub struct AssemblerInstruction {
    pub opcode: Option<Token>,
    pub label: Option<Token>,
    pub directive: Option<Token>,
    pub operand1: Option<Token>,
    pub operand2: Option<Token>,
    pub operand3: Option<Token>,
}

/// Mathematical content of one instruction record.
pub ghost struct InstructionModel {
    pub opcode: Option<TokenModel>,
    pub label: Option<TokenModel>,
    pub directive: Option<TokenModel>,
    pub operand1: Option<TokenModel>,
    pub operand2: Option<TokenModel>,
    pub operand3: Option<TokenModel>,
}

impl View for AssemblerInstruction {
    type V = InstructionModel;

    open spec fn view(&self) -> InstructionModel {
        InstructionModel {
            opcode: spec_opt_token(self.opcode),
            label: spec_opt_token(self.label),
            directive: spec_opt_token(self.directive),
            operand1: spec_opt_token(self.operand1),
            operand2: spec_opt_token(self.operand2),
            operand3: spec_opt_token(self.operand3),
        }
    }
}

/// The bytes one operand token contributes to an encoded instruction: one
/// byte for a register index, two (big-endian, truncated to 16 bits) for an
/// integer immediate.
pub open spec fn spec_operand_bytes(t: TokenModel) -> Seq<u8> {
    match t {
        TokenModel::Register { reg_num } => seq![reg_num],
        TokenModel::IntegerOperand { value } => {
            let v16 = value as u16;
            seq![(v16 / 256) as u8, (v16 % 256) as u8]
        },
        _ => Seq::empty(),
    }
}

/// The bytes of an optional operand slot.
pub open spec fn spec_opt_operand_bytes(t: Option<TokenModel>) -> Seq<u8> {
    match t {
        Some(t) => spec_operand_bytes(t),
        None => Seq::empty(),
    }
}

/// Whether an operand slot may appear in an encoded instruction: empty, a
/// register, or an integer immediate. A string must never appear as a direct
/// instruction operand.
pub open spec fn spec_operand_encodable(t: Option<TokenModel>) -> bool {
    match t {
        None => true,
        Some(TokenModel::Register { .. }) => true,
        Some(TokenModel::IntegerOperand { .. }) => true,
        _ => false,
    }
}

/// The opcode byte of a record; zero when the record carries no opcode
/// token (such a record is not encodable).
pub open spec fn spec_instruction_code(i: InstructionModel) -> u8 {
    match i.opcode {
        Some(TokenModel::Op { code }) => spec_opcode_code(code),
        _ => 0,
    }
}

/// Whether a record can be encoded as one fixed-width instruction: it
/// carries an opcode token, every operand is a register or an immediate, and
/// opcode plus operands fit the four-byte width.
pub open spec fn spec_encodable(i: InstructionModel) -> bool {
    &&& i.opcode matches Some(TokenModel::Op { .. })
    &&& spec_operand_encodable(i.operand1)
    &&& spec_operand_encodable(i.operand2)
    &&& spec_operand_encodable(i.operand3)
    &&& 1 + spec_opt_operand_bytes(i.operand1).len() + spec_opt_operand_bytes(i.operand2).len()
        + spec_opt_operand_bytes(i.operand3).len() <= 4
}

/// The four bytes of an encoded instruction: opcode byte, operand bytes in
/// order, zero padding up to the fixed width.
pub open spec fn spec_encode_instruction(i: InstructionModel) -> Seq<u8> {
    let body = seq![spec_instruction_code(i)] + spec_opt_operand_bytes(i.operand1)
        + spec_opt_operand_bytes(i.operand2) + spec_opt_operand_bytes(i.operand3);
    if body.len() >= 4 {
        body
    } else {
        body + Seq::new((4 - body.len()) as nat, |j: int| 0u8)
    }
}

/// Appends one operand's encoding to the byte buffer.
fn extract_operand(token: &Token, results: &mut Vec<u8>)
    requires
        spec_operand_encodable(Some(token@)),
    ensures
        final(results)@ == old(results)@ + spec_operand_bytes(token@),
{
    match token {
        Token::Register { reg_num } => {
            results.push(*reg_num);
            proof {
                assert(results@ =~= old(results)@ + spec_operand_bytes(token@));
            }
        },
        Token::IntegerOperand { value } => {
            let v16 = #[verifier::truncate] (*value as u16);
            results.push((v16 / 256) as u8);
            results.push((v16 % 256) as u8);
            proof {
                assert(results@ =~= old(results)@ + spec_operand_bytes(token@));
            }
        },
        _ => {
            proof {
                assert(false);
            }
        },
    }
}

impl AssemblerInstruction {
    /// Whether the record carries a label declaration.
    pub fn is_label(&self) -> (r: bool)
        ensures
            r == (self@.label is Some),
    {
        self.label.is_some()
    }

    /// Whether the record is opcode-bearing.
    pub fn is_opcode(&self) -> (r: bool)
        ensures
            r == (self@.opcode is Some),
    {
        self.opcode.is_some()
    }

    /// Whether the record is directive-bearing.
    pub fn is_directive(&self) -> (r: bool)
        ensures
            r == (self@.directive is Some),
    {
        self.directive.is_some()
    }

    /// Whether the record has at least one operand.
    pub fn has_operands(&self) -> (r: bool)
        ensures
            r == (self@.operand1 is Some),
    {
        self.operand1.is_some()
    }

    /// The directive's name, when the record carries a directive token.
    pub fn get_directive_name(&self) -> (r: Option<String>)
        ensures
            match r {
                Some(n) => self@.directive matches Some(TokenModel::Directive { name })
                    && n@ == name,
                None => !(self@.directive matches Some(TokenModel::Directive { .. })),
            },
    {
        match &self.directive {
            Some(Token::Directive { name }) => Some(name.clone()),
            _ => None,
        }
    }

    /// The declared label's name, when the record carries one.
    pub fn get_label_name(&self) -> (r: Option<String>)
        ensures
            match r {
                Some(n) => self@.label matches Some(TokenModel::LabelDeclaration { name })
                    && n@ == name,
                None => !(self@.label matches Some(TokenModel::LabelDeclaration { .. })),
            },
    {
        match &self.label {
            Some(Token::LabelDeclaration { name }) => Some(name.clone()),
            _ => None,
        }
    }

    /// The string constant in the first operand slot, when there is one.
    pub fn get_string_constant(&self) -> (r: Option<String>)
        ensures
            match r {
                Some(v) => self@.operand1 matches Some(TokenModel::Str { value }) && v@ == value,
                None => !(self@.operand1 matches Some(TokenModel::Str { .. })),
            },
    {
        match &self.operand1 {
            Some(Token::Str { value }) => Some(value.clone()),
            _ => None,
        }
    }

    /// Whether the record can be encoded as one four-byte instruction.
    pub fn is_encodable(&self) -> (r: bool)
        ensures
            r == spec_encodable(self@),
    {
        let opcode_ok = match &self.opcode {
            Some(Token::Op { .. }) => true,
            _ => false,
        };
        let n1 = match operand_width(&self.operand1) {
            Some(n) => n,
            None => { return false; },
        };
        let n2 = match operand_width(&self.operand2) {
            Some(n) => n,
            None => { return false; },
        };
        let n3 = match operand_width(&self.operand3) {
            Some(n) => n,
            None => { return false; },
        };
        opcode_ok && 1 + n1 + n2 + n3 <= 4
    }

    /// Encodes the record as exactly four bytes: the opcode's code, the
    /// operand bytes in order, zero padding at the end.
    pub fn to_bytes(&self) -> (r: Vec<u8>)
        requires
            spec_encodable(self@),
        ensures
            r@ == spec_encode_instruction(self@),
            r@.len() == 4,
    {
        let ghost body = seq![spec_instruction_code(self@)] + spec_opt_operand_bytes(self@.operand1)
            + spec_opt_operand_bytes(self@.operand2) + spec_opt_operand_bytes(self@.operand3);
        let mut results: Vec<u8> = Vec::new();
        match &self.opcode {
            Some(Token::Op { code }) => {
                results.push(code.code());
            },
            _ => {
                proof {
                    assert(false);
                }
            },
        }
        match &self.operand1 {
            Some(t) => extract_operand(t, &mut results),
            None => (),
        }
        match &self.operand2 {
            Some(t) => extract_operand(t, &mut results),
            None => (),
        }
        match &self.operand3 {
            Some(t) => extract_operand(t, &mut results),
            None => (),
        }
        proof {
            assert(results@ =~= body);
            assert(results@ =~= body + Seq::new((results@.len() - body.len()) as nat, |j: int| 0u8));
        }
        while results.len() < 4
            invariant
                body.len() <= results@.len() <= 4,
                results@ == body + Seq::new((results@.len() - body.len()) as nat, |j: int| 0u8),
            decreases 4 - results.len(),
        {
            results.push(0);
            proof {
                assert(results@ =~= body + Seq::new((results@.len() - body.len()) as nat, |j: int| 0u8));
            }
        }
        proof {
            assert(results@ =~= spec_encode_instruction(self@));
        }
        results
    }
}

/// Width in bytes an operand slot contributes, or `None` for a token that
/// may not stand in an instruction.
fn operand_width(o: &Option<Token>) -> (r: Option<usize>)
    ensures
        match r {
            Some(n) => spec_operand_encodable(spec_opt_token(*o)) && n == spec_opt_operand_bytes(
                spec_opt_token(*o),
            ).len(),
            None => !spec_operand_encodable(spec_opt_token(*o)),
        },
{
    match o {
        None => Some(0),
        Some(Token::Register { .. }) => Some(1),
        Some(Token::IntegerOperand { .. }) => Some(2),
        _ => None,
    }
}

/// The combined instruction form at `pos`: optional label declaration, a
/// mnemonic, then up to three operands, each taken greedily.
pub open spec fn spec_instruction_combined(s: Seq<char>, pos: int) -> Option<(InstructionModel, int)> {
    match spec_label_declaration_parser(s, pos) {
        Some(ltp) => spec_combined_after_label(s, ltp.1, Some(ltp.0)),
        None => spec_combined_after_label(s, pos, None),
    }
}

/// The rest of the combined form, once the optional label is settled.
pub open spec fn spec_combined_after_label(
    s: Seq<char>,
    p1: int,
    label: Option<TokenModel>,
) -> Option<(InstructionModel, int)> {
    match spec_opcode_parser(s, p1) {
        None => None,
        Some(otp) => {
            let o1 = spec_operand_parser(s, otp.1);
            match o1 {
                None => Some(
                    (
                        InstructionModel {
                            opcode: Some(otp.0),
                            label,
                            directive: None,
                            operand1: None,
                            operand2: None,
                            operand3: None,
                        },
                        otp.1,
                    ),
                ),
                Some(tp1) => {
                    let o2 = spec_operand_parser(s, tp1.1);
                    match o2 {
                        None => Some(
                            (
                                InstructionModel {
                                    opcode: Some(otp.0),
                                    label,
                                    directive: None,
                                    operand1: Some(tp1.0),
                                    operand2: None,
                                    operand3: None,
                                },
                                tp1.1,
                            ),
                        ),
                        Some(tp2) => {
                            let o3 = spec_operand_parser(s, tp2.1);
                            match o3 {
                                None => Some(
                                    (
                                        InstructionModel {
                                            opcode: Some(otp.0),
                                            label,
                                            directive: None,
                                            operand1: Some(tp1.0),
                                            operand2: Some(tp2.0),
                                            operand3: None,
                                        },
                                        tp2.1,
                                    ),
                                ),
                                Some(tp3) => Some(
                                    (
                                        InstructionModel {
                                            opcode: Some(otp.0),
                                            label,
                                            directive: None,
                                            operand1: Some(tp1.0),
                                            operand2: Some(tp2.0),
                                            operand3: Some(tp3.0),
                                        },
                                        tp3.1,
                                    ),
                                ),
                            }
                        },
                    }
                },
            }
        },
    }
}

/// One instruction line: the combined form, or the directive form, then an
/// optional trailing newline.
pub open spec fn spec_instruction_parser(s: Seq<char>, pos: int) -> Option<(InstructionModel, int)> {
    let alt = match spec_instruction_combined(s, pos) {
        Some(tp) => Some(tp),
        None => spec_directive_parser(s, pos),
    };
    match alt {
        None => None,
        Some(tp) => {
            if tp.1 < s.len() && s[tp.1] == '\n' {
                Some((tp.0, tp.1 + 1))
            } else {
                Some(tp)
            }
        },
    }
}

/// Parses the combined instruction form at `pos`.
pub fn instruction_combined(input: &str, pos: usize) -> (r: Option<(AssemblerInstruction, usize)>)
    requires
        pos <= input@.len(),
    ensures
        ({
            let m = spec_instruction_combined(input@, pos as int);
            match r {
                Some(tp) => m == Some((tp.0@, tp.1 as int)) && pos < tp.1 <= input@.len(),
                None => m is None,
            }
        }),
{
    let (label, p1) = match label_declaration_parser(input, pos) {
        Some((t, p)) => (Some(t), p),
        None => (None, pos),
    };
    let (op, p2) = match opcode_parser(input, p1) {
        Some(tp) => tp,
        None => { return None; },
    };
    let (o1, p3) = match operand_parser(input, p2) {
        Some((t, p)) => (Some(t), p),
        None => (None, p2),
    };
    let (o2, p4) = match operand_parser(input, p3) {
        Some((t, p)) => (Some(t), p),
        None => (None, p3),
    };
    let (o3, p5) = match operand_parser(input, p4) {
        Some((t, p)) => (Some(t), p),
        None => (None, p4),
    };
    Some(
        (
            AssemblerInstruction {
                opcode: Some(op),
                label,
                directive: None,
                operand1: o1,
                operand2: o2,
                operand3: o3,
            },
            p5,
        ),
    )
}

/// Parses one instruction line at `pos`: the combined form or the directive
/// form, then an optional trailing newline.
pub fn instruction_parser(input: &str, pos: usize) -> (r: Option<(AssemblerInstruction, usize)>)
    requires
        pos <= input@.len(),
    ensures
        ({
            let m = spec_instruction_parser(input@, pos as int);
            match r {
                Some(tp) => m == Some((tp.0@, tp.1 as int)) && pos < tp.1 <= input@.len(),
                None => m is None,
            }
        }),
{
    let parsed = match instruction_combined(input, pos) {
        Some(tp) => Some(tp),
        None => directive_parser(input, pos),
    };
    match parsed {
        None => None,
        Some((instr, p)) => {
            let n = input.unicode_len();
            if p < n && input.get_char(p) == '\n' {
                Some((instr, p + 1))
            } else {
                Some((instr, p))
            }
        },
    }
}

} // verus!
