//! The two-pass assembler: drives the parsers over a whole program, performs
//! label discovery (pass one), then emits binary instructions and resolves
//! directives that populate the read-only data section (pass two), and
//! prefixes the fixed-size program-image header.

pub mod directive_parsers;
pub mod instruction_parsers;
pub mod label_parsers;
pub mod opcode_parsers;
pub mod operand_parsers;
pub mod program_parsers;
pub mod register_parsers;
pub mod symbol;
pub mod text;

use vstd::prelude::*;
use vstd::string::StrSliceExecFns;

use crate::assembler::instruction_parsers::{
    spec_encodable, spec_encode_instruction, AssemblerInstruction, InstructionModel,
};
use crate::assembler::program_parsers::{spec_program_parser, Program};
use crate::assembler::symbol::{
    spec_first_match, spec_symbol_contains, Symbol, SymbolModel, SymbolTable, SymbolType,
};
use crate::assembler::text::str_eq;
use crate::instruction::Opcode;
use crate::assembler::program_parsers::program_parser;
use vstd::string::StringExecFns;
use vstd::utf8::encode_utf8;

verus! {

/// One lexical token of the assembly language.
#[derive(Debug, PartialEq)]
pub enum Token {
    /// A mnemonic, resolved against the opcode enumeration.
    Op { code: Opcode },
    /// `$` followed by digits: a register index.
    Register { reg_num: u8 },
    /// `#` followed by digits: an immediate value.
    IntegerOperand { value: i32 },
    /// An identifier followed by `:`.
    LabelDeclaration { name: String },
    /// `@` followed by an identifier; accepted lexically, not resolved.
    LabelUsage { name: String },
    /// `.` followed by an identifier.
    Directive { name: String },
    /// Single-quote-delimited text, no escape processing.
    Str { value: String },
}

/// Mathematical content of a token: names and string values as character
/// sequences.
pub ghost enum TokenModel {
    Op { code: Opcode },
    Register { reg_num: u8 },
    IntegerOperand { value: i32 },
    LabelDeclaration { name: Seq<char> },
    LabelUsage { name: Seq<char> },
    Directive { name: Seq<char> },
    Str { value: Seq<char> },
}

impl View for Token {
    type V = TokenModel;

    open spec fn view(&self) -> TokenModel {
        match self {
            Token::Op { code } => TokenModel::Op { code: *code },
            Token::Register { reg_num } => TokenModel::Register { reg_num: *reg_num },
            Token::IntegerOperand { value } => TokenModel::IntegerOperand { value: *value },
            Token::LabelDeclaration { name } => TokenModel::LabelDeclaration { name: name@ },
            Token::LabelUsage { name } => TokenModel::LabelUsage { name: name@ },
            Token::Directive { name } => TokenModel::Directive { name: name@ },
            Token::Str { value } => TokenModel::Str { value: value@ },
        }
    }
}

/// The view of an optional token.
pub open spec fn spec_opt_token(o: Option<Token>) -> Option<TokenModel> {
    match o {
        Some(t) => Some(t@),
        None => None,
    }
}

/// Total size in bytes of the program-image header: the four magic bytes
/// followed by zero padding.
pub const PIE_HEADER_LENGTH: usize = 64;

/// The four magic bytes that open every program image.
pub open spec fn spec_magic_prefix() -> Seq<u8> {
    seq![45u8, 50u8, 49u8, 45u8]
}

/// The complete 64-byte header: magic prefix, then zero fill.
pub open spec fn spec_pie_header() -> Seq<u8> {
    spec_magic_prefix() + Seq::new(60, |i: int| 0u8)
}

/// Whether a program buffer opens with a valid image header prefix.
pub open spec fn spec_has_header(program: Seq<u8>) -> bool {
    program.len() >= 4 && program.subrange(0, 4) == spec_magic_prefix()
}

/// The phase the assembler is in; label discovery first, emission second.
#[derive(Debug, PartialEq, Eq, Structural, Clone, Copy)]
pub enum AssemblerPhase {
    First,
    Second,
}

/// A section of the program named by a section directive.
#[derive(Debug, PartialEq, Eq, Structural, Clone, Copy)]
pub enum AssemblerSection {
    Header,
    Data,
    Code,
}

/// Everything that can make an assembly fail. Assembly never partially
/// succeeds: on any of these the whole run fails and no image is produced.
#[derive(Debug, PartialEq)]
pub enum AssemblerError {
    /// Malformed source text: the text does not parse as a program, leaves
    /// unparsed trailing input, holds an instruction that does not fit the
    /// four-byte encoding, or asks for more read-only data than 32-bit
    /// offsets can address.
    ParseError { error: String },
    /// A label was declared twice.
    SymbolAlreadyDeclared,
    /// A record's label slot holds something other than a declaration.
    StringConstantDeclaredWithoutLabel { instruction: u32 },
    /// A directive with operands whose name no directive matches.
    UnknownDirectiveFound { directive: String },
    /// A record's directive slot holds something other than a directive.
    DirectiveHasInvalidName,
    /// A directive that needs an operand came without one.
    DirectiveWithoutOperand,
    /// A bare directive whose name is no section.
    UnknownSectionFound,
    /// An `asciiz` directive without a string operand.
    NoStringConstant,
    /// An `asciiz` directive without an owning label.
    NoLabel,
}

/// Mathematical content of an assembly error.
pub ghost enum AssemblerErrorModel {
    ParseError { error: Seq<char> },
    SymbolAlreadyDeclared,
    StringConstantDeclaredWithoutLabel { instruction: u32 },
    UnknownDirectiveFound { directive: Seq<char> },
    DirectiveHasInvalidName,
    DirectiveWithoutOperand,
    UnknownSectionFound,
    NoStringConstant,
    NoLabel,
}

impl View for AssemblerError {
    type V = AssemblerErrorModel;

    open spec fn view(&self) -> AssemblerErrorModel {
        match self {
            AssemblerError::ParseError { error } => AssemblerErrorModel::ParseError {
                error: error@,
            },
            AssemblerError::SymbolAlreadyDeclared => AssemblerErrorModel::SymbolAlreadyDeclared,
            AssemblerError::StringConstantDeclaredWithoutLabel { instruction } => {
                AssemblerErrorModel::StringConstantDeclaredWithoutLabel {
                    instruction: *instruction,
                }
            },
            AssemblerError::UnknownDirectiveFound { directive } => {
                AssemblerErrorModel::UnknownDirectiveFound { directive: directive@ }
            },
            AssemblerError::DirectiveHasInvalidName => AssemblerErrorModel::DirectiveHasInvalidName,
            AssemblerError::DirectiveWithoutOperand => AssemblerErrorModel::DirectiveWithoutOperand,
            AssemblerError::UnknownSectionFound => AssemblerErrorModel::UnknownSectionFound,
            AssemblerError::NoStringConstant => AssemblerErrorModel::NoStringConstant,
            AssemblerError::NoLabel => AssemblerErrorModel::NoLabel,
        }
    }
}

/// Mathematical snapshot of the assembler's whole state.
pub ghost struct AssemblerModel {
    pub phase: AssemblerPhase,
    pub symbols: Seq<SymbolModel>,
    pub ro: Seq<u8>,
    pub bytecode: Seq<u8>,
    pub ro_offset: u32,
    pub sections: Seq<AssemblerSection>,
    pub current_section: Option<AssemblerSection>,
    pub current_instruction: u32,
}

/// Either-state result of one assembler phase over the model: the new state,
/// or the state at the moment of failure with the error.
pub ghost enum PhaseResult {
    Pass { state: AssemblerModel },
    Fail { state: AssemblerModel, err: AssemblerErrorModel },
}

/// Like [`PhaseResult`], with the bytes the emission phase produced.
pub ghost enum EmitResult {
    Pass { state: AssemblerModel, bytes: Seq<u8> },
    Fail { state: AssemblerModel, err: AssemblerErrorModel },
}

/// Outcome of a whole assembly over the model.
pub ghost enum AssembleResult {
    Pass { state: AssemblerModel, image: Seq<u8> },
    Fail { state: AssemblerModel, err: AssemblerErrorModel },
}

/// Activating a section: it becomes current, and joins the list of seen
/// sections if it is not already there (activation is idempotent, so the
/// same logic can run in both passes).
pub open spec fn spec_activate_section(state: AssemblerModel, sec: AssemblerSection) -> AssemblerModel {
    AssemblerModel {
        current_section: Some(sec),
        sections: if state.sections.contains(sec) {
            state.sections
        } else {
            state.sections.push(sec)
        },
        ..state
    }
}

/// A bare directive read as a section header: `header`, `data` and `code`
/// activate their section; any other name is an unknown-section error.
pub open spec fn spec_process_section_header(state: AssemblerModel, name: Seq<char>) -> PhaseResult {
    if name == "header"@ {
        PhaseResult::Pass { state: spec_activate_section(state, AssemblerSection::Header) }
    } else if name == "data"@ {
        PhaseResult::Pass { state: spec_activate_section(state, AssemblerSection::Data) }
    } else if name == "code"@ {
        PhaseResult::Pass { state: spec_activate_section(state, AssemblerSection::Code) }
    } else {
        PhaseResult::Fail { state, err: AssemblerErrorModel::UnknownSectionFound }
    }
}

/// One record of the discovery pass: a bare section directive updates the
/// current section; then a label declared while a section is active becomes
/// a symbol at placeholder offset zero, unless its name already has one.
pub open spec fn spec_first_phase_record(state: AssemblerModel, i: InstructionModel) -> PhaseResult {
    let after_section = match i.directive {
        Some(TokenModel::Directive { name }) => {
            if i.operand1 is Some {
                PhaseResult::Pass { state }
            } else if name == "asciiz"@ {
                PhaseResult::Pass { state }
            } else {
                spec_process_section_header(state, name)
            }
        },
        _ => PhaseResult::Pass { state },
    };
    match after_section {
        PhaseResult::Fail { state, err } => PhaseResult::Fail { state, err },
        PhaseResult::Pass { state } => {
            if i.label is Some && state.current_section is Some {
                match i.label {
                    Some(TokenModel::LabelDeclaration { name }) => {
                        let sym = SymbolModel {
                            name,
                            offset: 0,
                            symbol_type: SymbolType::Label,
                        };
                        if spec_symbol_contains(state.symbols, sym) {
                            PhaseResult::Fail {
                                state,
                                err: AssemblerErrorModel::SymbolAlreadyDeclared,
                            }
                        } else {
                            PhaseResult::Pass {
                                state: (AssemblerModel { symbols: state.symbols.push(sym), ..state }),
                            }
                        }
                    },
                    _ => PhaseResult::Fail {
                        state,
                        err: AssemblerErrorModel::StringConstantDeclaredWithoutLabel {
                            instruction: state.current_instruction,
                        },
                    },
                }
            } else {
                PhaseResult::Pass { state }
            }
        },
    }
}

/// The whole discovery pass, record by record.
pub open spec fn spec_first_phase(state: AssemblerModel, instrs: Seq<InstructionModel>) -> PhaseResult
    decreases instrs.len(),
{
    if instrs.len() == 0 {
        PhaseResult::Pass { state }
    } else {
        match spec_first_phase_record(state, instrs[0]) {
            PhaseResult::Pass { state } => spec_first_phase(state, instrs.drop_first()),
            PhaseResult::Fail { state, err } => PhaseResult::Fail { state, err },
        }
    }
}

/// Message carried by the parse error for text that does not parse, or
/// leaves trailing input behind.
pub open spec fn spec_parse_error_msg() -> Seq<char> {
    "the source text does not parse as a program"@
}

/// Message carried by the parse error for an instruction that does not fit
/// the fixed four-byte encoding.
pub open spec fn spec_encoding_error_msg() -> Seq<char> {
    "an instruction does not fit the four-byte encoding"@
}

/// Message carried by the parse error for read-only data past what 32-bit
/// offsets can address.
pub open spec fn spec_ro_overflow_msg() -> Seq<char> {
    "the read-only section exceeds the 32-bit offset space"@
}

/// The `asciiz` directive: the owning label's symbol receives the current
/// read-only offset, the string's bytes and one terminating zero join the
/// read-only section, and the offset advances past them.
pub open spec fn spec_handle_asciiz(state: AssemblerModel, i: InstructionModel) -> PhaseResult {
    match i.operand1 {
        Some(TokenModel::Str { value }) => {
            match i.label {
                Some(TokenModel::LabelDeclaration { name }) => {
                    let bytes = encode_utf8(value);
                    if state.ro_offset + bytes.len() + 1 > u32::MAX {
                        PhaseResult::Fail {
                            state,
                            err: AssemblerErrorModel::ParseError { error: spec_ro_overflow_msg() },
                        }
                    } else {
                        let idx = spec_first_match(state.symbols, name);
                        let symbols = if idx >= 0 {
                            state.symbols.update(
                                idx,
                                SymbolModel { offset: state.ro_offset, ..state.symbols[idx] },
                            )
                        } else {
                            state.symbols
                        };
                        PhaseResult::Pass {
                            state: (AssemblerModel {
                                symbols,
                                ro: state.ro + bytes + seq![0u8],
                                ro_offset: (state.ro_offset + bytes.len() + 1) as u32,
                                ..state
                            }),
                        }
                    }
                },
                _ => PhaseResult::Fail { state, err: AssemblerErrorModel::NoLabel },
            }
        },
        _ => PhaseResult::Fail { state, err: AssemblerErrorModel::NoStringConstant },
    }
}

/// Dispatch of one directive-bearing record in the emission pass.
pub open spec fn spec_process_directive(state: AssemblerModel, i: InstructionModel) -> PhaseResult {
    match i.directive {
        Some(TokenModel::Directive { name }) => {
            if i.operand1 is Some {
                if name == "asciiz"@ {
                    spec_handle_asciiz(state, i)
                } else {
                    PhaseResult::Fail {
                        state,
                        err: AssemblerErrorModel::UnknownDirectiveFound { directive: name },
                    }
                }
            } else {
                if name == "asciiz"@ {
                    PhaseResult::Fail { state, err: AssemblerErrorModel::DirectiveWithoutOperand }
                } else {
                    spec_process_section_header(state, name)
                }
            }
        },
        _ => PhaseResult::Fail { state, err: AssemblerErrorModel::DirectiveHasInvalidName },
    }
}

/// The diagnostic instruction counter, advanced once per record of the
/// emission pass; it saturates rather than wraps.
pub open spec fn spec_bump_counter(state: AssemblerModel) -> AssemblerModel {
    if state.current_instruction < u32::MAX {
        AssemblerModel { current_instruction: (state.current_instruction + 1) as u32, ..state }
    } else {
        state
    }
}

/// One record of the emission pass: an opcode-bearing record encodes to four
/// bytes (an unencodable one is malformed text), a directive-bearing record
/// is dispatched, anything else contributes nothing.
pub open spec fn spec_second_phase_record(state: AssemblerModel, i: InstructionModel) -> EmitResult {
    let stepped = if i.opcode is Some {
        if spec_encodable(i) {
            EmitResult::Pass { state, bytes: spec_encode_instruction(i) }
        } else {
            EmitResult::Fail {
                state,
                err: AssemblerErrorModel::ParseError { error: spec_encoding_error_msg() },
            }
        }
    } else if i.directive is Some {
        match spec_process_directive(state, i) {
            PhaseResult::Pass { state } => EmitResult::Pass { state, bytes: Seq::empty() },
            PhaseResult::Fail { state, err } => EmitResult::Fail { state, err },
        }
    } else {
        EmitResult::Pass { state, bytes: Seq::empty() }
    };
    match stepped {
        EmitResult::Pass { state, bytes } => EmitResult::Pass { state: spec_bump_counter(state), bytes },
        EmitResult::Fail { state, err } => EmitResult::Fail { state, err },
    }
}

/// The whole emission pass, record by record, concatenating the emitted
/// bytes.
pub open spec fn spec_second_phase(state: AssemblerModel, instrs: Seq<InstructionModel>) -> EmitResult
    decreases instrs.len(),
{
    if instrs.len() == 0 {
        EmitResult::Pass { state, bytes: Seq::empty() }
    } else {
        match spec_second_phase_record(state, instrs[0]) {
            EmitResult::Fail { state, err } => EmitResult::Fail { state, err },
            EmitResult::Pass { state, bytes } => {
                match spec_second_phase(state, instrs.drop_first()) {
                    EmitResult::Fail { state, err } => EmitResult::Fail { state, err },
                    EmitResult::Pass { state, bytes: rest } => EmitResult::Pass {
                        state,
                        bytes: bytes + rest,
                    },
                }
            },
        }
    }
}

/// A whole assembly over the model: parse the text (rejecting trailing
/// input), run discovery, then emission, and prefix the image header.
pub open spec fn spec_assemble(state: AssemblerModel, s: Seq<char>) -> AssembleResult {
    match spec_program_parser(s) {
        None => AssembleResult::Fail {
            state,
            err: AssemblerErrorModel::ParseError { error: spec_parse_error_msg() },
        },
        Some(pp) => {
            if pp.1 < s.len() {
                AssembleResult::Fail {
                    state,
                    err: AssemblerErrorModel::ParseError { error: spec_parse_error_msg() },
                }
            } else {
                match spec_first_phase(state, pp.0) {
                    PhaseResult::Fail { state, err } => AssembleResult::Fail { state, err },
                    PhaseResult::Pass { state } => {
                        let ready = AssemblerModel {
                            phase: AssemblerPhase::Second,
                            current_instruction: 0,
                            ..state
                        };
                        match spec_second_phase(ready, pp.0) {
                            EmitResult::Fail { state, err } => AssembleResult::Fail { state, err },
                            EmitResult::Pass { state, bytes } => AssembleResult::Pass {
                                state,
                                image: spec_pie_header() + bytes,
                            },
                        }
                    },
                }
            }
        },
    }
}

/// The assembler: symbol table, read-only data section, section tracking,
/// and the state of one `assemble` run.
#[derive(Debug)]
pub struct Assembler {
    /// Which phase the assembler is in.
    phase: AssemblerPhase,
    /// Symbol table for labels.
    pub symbols: SymbolTable,
    /// The read-only data section string constants are put in.
    pub ro: Vec<u8>,
    /// Scratch buffer kept for callers that fill it by hand.
    pub bytecode: Vec<u8>,
    /// Current offset of the read-only section.
    ro_offset: u32,
    /// Every section seen in the code, in first-seen order.
    sections: Vec<AssemblerSection>,
    /// The section the assembler is currently in.
    current_section: Option<AssemblerSection>,
    /// The record the emission pass is at, for diagnostics.
    current_instruction: u32,
}

impl View for Assembler {
    type V = AssemblerModel;

    closed spec fn view(&self) -> AssemblerModel {
        AssemblerModel {
            phase: self.phase,
            symbols: self.symbols@,
            ro: self.ro@,
            bytecode: self.bytecode@,
            ro_offset: self.ro_offset,
            sections: self.sections@,
            current_section: self.current_section,
            current_instruction: self.current_instruction,
        }
    }
}

impl Assembler {
    /// A fresh assembler in the discovery phase with everything empty.
    pub fn new() -> (r: Assembler)
        ensures
            r@ == (AssemblerModel {
                phase: AssemblerPhase::First,
                symbols: Seq::<SymbolModel>::empty(),
                ro: Seq::<u8>::empty(),
                bytecode: Seq::<u8>::empty(),
                ro_offset: 0,
                sections: Seq::<AssemblerSection>::empty(),
                current_section: None,
                current_instruction: 0,
            }),
    {
        let a = Assembler {
            phase: AssemblerPhase::First,
            symbols: SymbolTable::new(),
            ro: Vec::new(),
            bytecode: Vec::new(),
            ro_offset: 0,
            sections: Vec::new(),
            current_section: None,
            current_instruction: 0,
        };
        proof {
            assert(a@.symbols =~= Seq::<SymbolModel>::empty());
        }
        a
    }

    /// The fixed 64-byte program-image header: the magic prefix, then zero
    /// fill. Its shape does not depend on the assembler's state nor on any
    /// program.
    pub fn write_pie_header(&self) -> (r: Vec<u8>)
        ensures
            r@ == spec_pie_header(),
            r@.len() == PIE_HEADER_LENGTH,
            r@.subrange(0, 4) == spec_magic_prefix(),
            forall|i: int| 4 <= i < 64 ==> r@[i] == 0u8,
    {
        let mut header: Vec<u8> = Vec::with_capacity(PIE_HEADER_LENGTH);
        header.push(45);
        header.push(50);
        header.push(49);
        header.push(45);
        while header.len() < 64
            invariant
                4 <= header@.len() <= 64,
                header@.subrange(0, 4) =~= spec_magic_prefix(),
                forall|i: int| 4 <= i < header@.len() ==> header@[i] == 0u8,
            decreases 64 - header.len(),
        {
            header.push(0);
            proof {
                assert(header@.subrange(0, 4) =~= spec_magic_prefix());
            }
        }
        proof {
            assert(header@ =~= spec_pie_header());
        }
        header
    }

    /// Whether a section has been seen already.
    fn section_seen(&self, sec: AssemblerSection) -> (r: bool)
        ensures
            r == self@.sections.contains(sec),
    {
        let n = self.sections.len();
        for i in 0..n
            invariant
                n == self.sections@.len(),
                forall|j: int| 0 <= j < i ==> self.sections@[j] != sec,
        {
            if self.sections[i] == sec {
                return true;
            }
        }
        proof {
            assert(!self@.sections.contains(sec));
        }
        false
    }

    /// Reads a bare directive as a section header and activates the section.
    fn process_section_header(&mut self, header_name: &str) -> (r: Result<(), AssemblerError>)
        ensures
            ({
                let m = spec_process_section_header(old(self)@, header_name@);
                match r {
                    Ok(_) => m matches PhaseResult::Pass { state } && final(self)@ == state,
                    Err(e) => m matches PhaseResult::Fail { state, err } && final(self)@ == state && e@
                        == err,
                }
            }),
    {
        let new_section = if str_eq(header_name, "header") {
            AssemblerSection::Header
        } else if str_eq(header_name, "data") {
            AssemblerSection::Data
        } else if str_eq(header_name, "code") {
            AssemblerSection::Code
        } else {
            return Err(AssemblerError::UnknownSectionFound);
        };
        let seen = self.section_seen(new_section);
        self.current_section = Some(new_section);
        if !seen {
            self.sections.push(new_section);
        }
        Ok(())
    }

    /// One record of the discovery pass.
    fn first_phase_record(&mut self, i: &AssemblerInstruction) -> (r: Result<(), AssemblerError>)
        ensures
            ({
                let m = spec_first_phase_record(old(self)@, i@);
                match r {
                    Ok(_) => m matches PhaseResult::Pass { state } && final(self)@ == state,
                    Err(e) => m matches PhaseResult::Fail { state, err } && final(self)@ == state && e@
                        == err,
                }
            }),
    {
        if self.is_bare_section_directive(i) {
            let name = match i.get_directive_name() {
                Some(n) => n,
                None => {
                    proof {
                        assert(false);
                    }
                    return Ok(());
                },
            };
            match self.process_section_header(name.as_str()) {
                Ok(_) => (),
                Err(e) => {
                    return Err(e);
                },
            }
        }
        if self.current_section.is_some() {
            if i.is_label() {
                match i.get_label_name() {
                    Some(name) => {
                        let sym = Symbol::new(name, SymbolType::Label, 0);
                        if self.symbols.has_symbol(&sym) {
                            return Err(AssemblerError::SymbolAlreadyDeclared);
                        }
                        self.symbols.add_symbol(sym);
                    },
                    None => {
                        return Err(
                            AssemblerError::StringConstantDeclaredWithoutLabel {
                                instruction: self.current_instruction,
                            },
                        );
                    },
                }
            }
        }
        Ok(())
    }

    /// Whether the record is a bare directive, with a proper directive
    /// token, whose name is not `asciiz`: the shape that can open a section.
    fn is_bare_section_directive(&self, i: &AssemblerInstruction) -> (r: bool)
        ensures
            r == ({
                match i@.directive {
                    Some(TokenModel::Directive { name }) => i@.operand1 is None && name
                        != "asciiz"@,
                    _ => false,
                }
            }),
    {
        match i.get_directive_name() {
            Some(name) => !i.has_operands() && !str_eq(name.as_str(), "asciiz"),
            None => false,
        }
    }

    /// The discovery pass over a whole program.
    fn extract_labels(&mut self, p: &Program) -> (r: Result<(), AssemblerError>)
        ensures
            ({
                let m = spec_first_phase(old(self)@, p@);
                match r {
                    Ok(_) => m matches PhaseResult::Pass { state } && final(self)@ == state,
                    Err(e) => m matches PhaseResult::Fail { state, err } && final(self)@ == state && e@
                        == err,
                }
            }),
    {
        let n = p.instructions.len();
        proof {
            assert(p@.skip(0) =~= p@);
        }
        for idx in 0..n
            invariant
                n == p.instructions@.len(),
                spec_first_phase(old(self)@, p@) == spec_first_phase(self@, p@.skip(idx as int)),
        {
            proof {
                assert(p@.skip(idx as int)[0] == p@[idx as int]);
                assert(p@.skip(idx as int).drop_first() =~= p@.skip(idx as int + 1));
            }
            match self.first_phase_record(&p.instructions[idx]) {
                Ok(_) => (),
                Err(e) => {
                    return Err(e);
                },
            }
        }
        proof {
            assert(p@.skip(n as int) =~= Seq::<InstructionModel>::empty());
        }
        Ok(())
    }

    /// The discovery pass, then the transition into the emission phase.
    fn process_first_phase(&mut self, p: &Program) -> (r: Result<(), AssemblerError>)
        ensures
            ({
                let m = spec_first_phase(old(self)@, p@);
                match r {
                    Ok(_) => m matches PhaseResult::Pass { state } && final(self)@ == (AssemblerModel {
                        phase: AssemblerPhase::Second,
                        ..state
                    }),
                    Err(e) => m matches PhaseResult::Fail { state, err } && final(self)@ == state && e@
                        == err,
                }
            }),
    {
        match self.extract_labels(p) {
            Ok(_) => (),
            Err(e) => {
                return Err(e);
            },
        }
        self.phase = AssemblerPhase::Second;
        Ok(())
    }

    /// The `asciiz` directive of the emission pass.
    fn handle_asciiz(&mut self, i: &AssemblerInstruction) -> (r: Result<(), AssemblerError>)
        ensures
            ({
                let m = spec_handle_asciiz(old(self)@, i@);
                match r {
                    Ok(_) => m matches PhaseResult::Pass { state } && final(self)@ == state,
                    Err(e) => m matches PhaseResult::Fail { state, err } && final(self)@ == state && e@
                        == err,
                }
            }),
    {
        let s = match i.get_string_constant() {
            Some(s) => s,
            None => {
                return Err(AssemblerError::NoStringConstant);
            },
        };
        let name = match i.get_label_name() {
            Some(n) => n,
            None => {
                return Err(AssemblerError::NoLabel);
            },
        };
        let mut bytes = s.as_str().as_bytes_vec();
        if bytes.len() >= (u32::MAX - self.ro_offset) as usize {
            return Err(
                AssemblerError::ParseError {
                    error: String::from_str("the read-only section exceeds the 32-bit offset space"),
                },
            );
        }
        let blen = bytes.len();
        self.symbols.set_symbol_offset(name.as_str(), self.ro_offset);
        self.ro.append(&mut bytes);
        self.ro.push(0);
        self.ro_offset = self.ro_offset + (blen as u32) + 1;
        proof {
            assert(self@.ro =~= old(self)@.ro + encode_utf8(s@) + seq![0u8]);
        }
        Ok(())
    }

    /// Dispatch of one directive-bearing record in the emission pass.
    fn process_directive(&mut self, i: &AssemblerInstruction) -> (r: Result<(), AssemblerError>)
        ensures
            ({
                let m = spec_process_directive(old(self)@, i@);
                match r {
                    Ok(_) => m matches PhaseResult::Pass { state } && final(self)@ == state,
                    Err(e) => m matches PhaseResult::Fail { state, err } && final(self)@ == state && e@
                        == err,
                }
            }),
    {
        let directive_name = match i.get_directive_name() {
            Some(n) => n,
            None => {
                return Err(AssemblerError::DirectiveHasInvalidName);
            },
        };
        if i.has_operands() {
            if str_eq(directive_name.as_str(), "asciiz") {
                self.handle_asciiz(i)
            } else {
                Err(AssemblerError::UnknownDirectiveFound { directive: directive_name })
            }
        } else {
            if str_eq(directive_name.as_str(), "asciiz") {
                Err(AssemblerError::DirectiveWithoutOperand)
            } else {
                self.process_section_header(directive_name.as_str())
            }
        }
    }

    /// One record of the emission pass: the bytes it contributes, if any.
    fn second_phase_record(&mut self, i: &AssemblerInstruction) -> (r: Result<
        Vec<u8>,
        AssemblerError,
    >)
        ensures
            ({
                let m = spec_second_phase_record(old(self)@, i@);
                match r {
                    Ok(bytes) => m matches EmitResult::Pass { state, bytes: bs } && final(self)@ == state
                        && bytes@ == bs,
                    Err(e) => m matches EmitResult::Fail { state, err } && final(self)@ == state && e@
                        == err,
                }
            }),
    {
        let out: Vec<u8> = if i.is_opcode() {
            if !i.is_encodable() {
                return Err(
                    AssemblerError::ParseError {
                        error: String::from_str(
                            "an instruction does not fit the four-byte encoding",
                        ),
                    },
                );
            }
            i.to_bytes()
        } else if i.is_directive() {
            match self.process_directive(i) {
                Ok(_) => Vec::new(),
                Err(e) => {
                    return Err(e);
                },
            }
        } else {
            Vec::new()
        };
        if self.current_instruction < u32::MAX {
            self.current_instruction = self.current_instruction + 1;
        }
        Ok(out)
    }

    /// The emission pass over a whole program: encodes every opcode-bearing
    /// record and resolves every directive, concatenating the emitted bytes.
    fn process_second_phase(&mut self, p: &Program) -> (r: Result<Vec<u8>, AssemblerError>)
        ensures
            ({
                let m = spec_second_phase(
                    AssemblerModel { current_instruction: 0, ..old(self)@ },
                    p@,
                );
                match r {
                    Ok(bytes) => m matches EmitResult::Pass { state, bytes: bs } && final(self)@ == state
                        && bytes@ == bs,
                    Err(e) => m matches EmitResult::Fail { state, err } && final(self)@ == state && e@
                        == err,
                }
            }),
    {
        self.current_instruction = 0;
        let mut program: Vec<u8> = Vec::new();
        let ghost start = self@;
        let n = p.instructions.len();
        proof {
            assert(p@.skip(0) =~= p@);
        }
        for idx in 0..n
            invariant
                n == p.instructions@.len(),
                start == (AssemblerModel { current_instruction: 0, ..old(self)@ }),
                ({
                    let whole = spec_second_phase(start, p@);
                    let rest = spec_second_phase(self@, p@.skip(idx as int));
                    match rest {
                        EmitResult::Pass { state, bytes } => whole matches EmitResult::Pass {
                            state: wa,
                            bytes: wb,
                        } && wa == state && wb == program@ + bytes,
                        EmitResult::Fail { state, err } => whole matches EmitResult::Fail {
                            state: wa,
                            err: we,
                        } && wa == state && we == err,
                    }
                }),
        {
            proof {
                assert(p@.skip(idx as int)[0] == p@[idx as int]);
                assert(p@.skip(idx as int).drop_first() =~= p@.skip(idx as int + 1));
            }
            match self.second_phase_record(&p.instructions[idx]) {
                Ok(mut bytes) => {
                    let ghost prev = program@;
                    let ghost bs = bytes@;
                    program.append(&mut bytes);
                    proof {
                        match spec_second_phase(self@, p@.skip(idx as int + 1)) {
                            EmitResult::Pass { state, bytes: more } => {
                                assert(prev + bs + more =~= prev + (bs + more));
                            },
                            EmitResult::Fail { .. } => {},
                        }
                    }
                },
                Err(e) => {
                    return Err(e);
                },
            }
        }
        proof {
            assert(p@.skip(n as int) =~= Seq::<InstructionModel>::empty());
        }
        Ok(program)
    }

    /// Assembles a whole source text into a loadable program image: parse,
    /// discovery pass, emission pass, header prefix. Assembly never
    /// partially succeeds: on any error no image is produced.
    pub fn assemble(&mut self, raw: &str) -> (r: Result<Vec<u8>, AssemblerError>)
        ensures
            ({
                let m = spec_assemble(old(self)@, raw@);
                match r {
                    Ok(image) => m matches AssembleResult::Pass { state, image: im } && final(self)@
                        == state && image@ == im,
                    Err(e) => m matches AssembleResult::Fail { state, err } && final(self)@ == state
                        && e@ == err,
                }
            }),
    {
        let (program, endpos) = match program_parser(raw) {
            Some(t) => t,
            None => {
                return Err(
                    AssemblerError::ParseError {
                        error: String::from_str("the source text does not parse as a program"),
                    },
                );
            },
        };
        if endpos < raw.unicode_len() {
            return Err(
                AssemblerError::ParseError {
                    error: String::from_str("the source text does not parse as a program"),
                },
            );
        }
        let mut assembled_program = self.write_pie_header();
        match self.process_first_phase(&program) {
            Ok(_) => (),
            Err(e) => {
                return Err(e);
            },
        }
        let mut body = match self.process_second_phase(&program) {
            Ok(b) => b,
            Err(e) => {
                return Err(e);
            },
        };
        assembled_program.append(&mut body);
        Ok(assembled_program)
    }
}


/// The program-image header is always exactly 64 bytes — the four magic
/// bytes, then zeros — independent of the assembler's state and of any
/// program.
pub proof fn lemma_pie_header_shape()
    ensures
        spec_pie_header().len() == PIE_HEADER_LENGTH,
        spec_pie_header().subrange(0, 4) == spec_magic_prefix(),
        forall|i: int| 4 <= i < 64 ==> spec_pie_header()[i] == 0u8,
{
    assert(spec_pie_header().subrange(0, 4) =~= spec_magic_prefix());
}

/// A symbol table as the discovery pass shapes it: every symbol is a label
/// at the placeholder offset, and no two symbols share a name.
pub open spec fn spec_distinct_placeholder_labels(syms: Seq<SymbolModel>) -> bool {
    &&& forall|i: int|
        0 <= i < syms.len() ==> (#[trigger] syms[i]).offset == 0 && syms[i].symbol_type
            == SymbolType::Label
    &&& forall|i: int, j: int|
        #![trigger syms[i].name, syms[j].name]
        0 <= i < j < syms.len() ==> syms[i].name != syms[j].name
}

/// Admitting a fresh placeholder label keeps the table's names distinct.
proof fn lemma_push_placeholder_distinct(syms: Seq<SymbolModel>, name: Seq<char>)
    requires
        spec_distinct_placeholder_labels(syms),
        !spec_symbol_contains(
            syms,
            SymbolModel { name, offset: 0, symbol_type: SymbolType::Label },
        ),
    ensures
        spec_distinct_placeholder_labels(
            syms.push(SymbolModel { name, offset: 0, symbol_type: SymbolType::Label }),
        ),
{
    let sym = SymbolModel { name, offset: 0, symbol_type: SymbolType::Label };
    let s2 = syms.push(sym);
    assert forall|i: int, j: int|
        #![trigger s2[i].name, s2[j].name]
        0 <= i < j < s2.len() implies s2[i].name != s2[j].name by {
        if j == syms.len() {
            assert(s2[i] == syms[i]);
            if syms[i].name == name {
                assert(syms[i] == sym);
                assert(spec_symbol_contains(syms, sym));
            }
        } else {
            assert(s2[i] == syms[i] && s2[j] == syms[j]);
        }
    }
    assert forall|i: int| 0 <= i < s2.len() implies (#[trigger] s2[i]).offset == 0
        && s2[i].symbol_type == SymbolType::Label by {
        if i < syms.len() {
            assert(s2[i] == syms[i]);
        } else {
            assert(s2[i] == sym);
        }
    }
}

/// Symbol uniqueness: the discovery pass refuses a duplicate label rather
/// than admit it, so whenever it succeeds from a table of distinct
/// placeholder labels — in particular from the empty table of a fresh
/// assembler — the table it leaves behind again holds no two symbols of one
/// name.
pub proof fn lemma_first_phase_keeps_labels_distinct(
    state: AssemblerModel,
    instrs: Seq<InstructionModel>,
)
    requires
        spec_distinct_placeholder_labels(state.symbols),
    ensures
        spec_first_phase(state, instrs) matches PhaseResult::Pass { state: a }
            ==> spec_distinct_placeholder_labels(a.symbols),
    decreases instrs.len(),
{
    if instrs.len() > 0 {
        match instrs[0].label {
            Some(TokenModel::LabelDeclaration { name }) => {
                let sym = SymbolModel { name, offset: 0, symbol_type: SymbolType::Label };
                if !spec_symbol_contains(state.symbols, sym) {
                    lemma_push_placeholder_distinct(state.symbols, name);
                }
            },
            _ => {},
        }
        match spec_first_phase_record(state, instrs[0]) {
            PhaseResult::Pass { state: s1 } => {
                assert(spec_distinct_placeholder_labels(s1.symbols));
                lemma_first_phase_keeps_labels_distinct(s1, instrs.drop_first());
            },
            PhaseResult::Fail { .. } => {},
        }
    }
}

} // verus!
