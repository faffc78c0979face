//! The opcode space of the virtual machine: a closed enumeration together
//! with the two total conversions (from a numeric byte and from a textual
//! mnemonic), both mapping unrecognized input to the explicit `IGL`
//! ("illegal") sentinel rather than failing.

use vstd::prelude::*;

verus! {

/// One operation of the virtual machine.
///
/// `IGL` stands for every byte or mnemonic outside the recognized range; the
/// machine refuses to execute it (see [`crate::vm`]).
#[derive(Debug, PartialEq, Eq, Structural, Clone, Copy)]
pub enum Opcode {
    LOAD,
    ADD,
    SUB,
    MUL,
    DIV,
    HLT,
    JMP,
    JMPF,
    JMPB,
    EQ,
    JEQ,
    JNEQ,
    ALOC,
    INC,
    DEC,
    IGL,
}

/// The numeric code of each opcode as it appears in assembled bytecode.
/// `IGL` itself is given the first unassigned code; every byte at or above it
/// decodes back to `IGL`.
pub open spec fn spec_opcode_code(op: Opcode) -> u8 {
    match op {
        Opcode::LOAD => 0,
        Opcode::ADD => 1,
        Opcode::SUB => 2,
        Opcode::MUL => 3,
        Opcode::DIV => 4,
        Opcode::JMP => 5,
        Opcode::JMPF => 6,
        Opcode::JMPB => 7,
        Opcode::EQ => 8,
        Opcode::JEQ => 9,
        Opcode::JNEQ => 10,
        Opcode::HLT => 11,
        Opcode::ALOC => 12,
        Opcode::INC => 13,
        Opcode::DEC => 14,
        Opcode::IGL => 15,
    }
}

/// Decoding of one bytecode byte into an opcode; total, with every
/// unassigned byte decoding to `IGL`.
pub open spec fn spec_opcode_of_byte(b: u8) -> Opcode {
    if b == 0 {
        Opcode::LOAD
    } else if b == 1 {
        Opcode::ADD
    } else if b == 2 {
        Opcode::SUB
    } else if b == 3 {
        Opcode::MUL
    } else if b == 4 {
        Opcode::DIV
    } else if b == 5 {
        Opcode::JMP
    } else if b == 6 {
        Opcode::JMPF
    } else if b == 7 {
        Opcode::JMPB
    } else if b == 8 {
        Opcode::EQ
    } else if b == 9 {
        Opcode::JEQ
    } else if b == 10 {
        Opcode::JNEQ
    } else if b == 11 {
        Opcode::HLT
    } else if b == 12 {
        Opcode::ALOC
    } else if b == 13 {
        Opcode::INC
    } else if b == 14 {
        Opcode::DEC
    } else {
        Opcode::IGL
    }
}

/// Case-insensitive match of one character against an upper-case letter `u`:
/// either the character itself or its lower-case form (32 above it in the
/// ASCII table).
pub open spec fn ci_char_eq(c: char, u: char) -> bool {
    c == u || c as u32 == u as u32 + 32
}

/// Case-insensitive match of a whole word against an upper-case mnemonic.
pub open spec fn mnemonic_matches(w: Seq<char>, m: Seq<char>) -> bool {
    w.len() == m.len() && forall|i: int| 0 <= i < m.len() ==> #[trigger] ci_char_eq(w[i], m[i])
}

/// Resolution of a textual mnemonic against the opcode enumeration,
/// case-insensitively; anything unrecognized resolves to `IGL`.
pub open spec fn spec_opcode_of_mnemonic(w: Seq<char>) -> Opcode {
    if mnemonic_matches(w, "LOAD"@) {
        Opcode::LOAD
    } else if mnemonic_matches(w, "ADD"@) {
        Opcode::ADD
    } else if mnemonic_matches(w, "SUB"@) {
        Opcode::SUB
    } else if mnemonic_matches(w, "MUL"@) {
        Opcode::MUL
    } else if mnemonic_matches(w, "DIV"@) {
        Opcode::DIV
    } else if mnemonic_matches(w, "HLT"@) {
        Opcode::HLT
    } else if mnemonic_matches(w, "JMPF"@) {
        Opcode::JMPF
    } else if mnemonic_matches(w, "JMPB"@) {
        Opcode::JMPB
    } else if mnemonic_matches(w, "JMP"@) {
        Opcode::JMP
    } else if mnemonic_matches(w, "EQ"@) {
        Opcode::EQ
    } else if mnemonic_matches(w, "JEQ"@) {
        Opcode::JEQ
    } else if mnemonic_matches(w, "JNEQ"@) {
        Opcode::JNEQ
    } else if mnemonic_matches(w, "ALOC"@) {
        Opcode::ALOC
    } else if mnemonic_matches(w, "INC"@) {
        Opcode::INC
    } else if mnemonic_matches(w, "DEC"@) {
        Opcode::DEC
    } else {
        Opcode::IGL
    }
}

impl Opcode {
    /// The numeric code this opcode is encoded as in bytecode.
    pub fn code(self) -> (r: u8)
        ensures
            r == spec_opcode_code(self),
    {
        match self {
            Opcode::LOAD => 0,
            Opcode::ADD => 1,
            Opcode::SUB => 2,
            Opcode::MUL => 3,
            Opcode::DIV => 4,
            Opcode::JMP => 5,
            Opcode::JMPF => 6,
            Opcode::JMPB => 7,
            Opcode::EQ => 8,
            Opcode::JEQ => 9,
            Opcode::JNEQ => 10,
            Opcode::HLT => 11,
            Opcode::ALOC => 12,
            Opcode::INC => 13,
            Opcode::DEC => 14,
            Opcode::IGL => 15,
        }
    }
}

/// Encoding and decoding an opcode through its numeric code is the identity.
pub proof fn lemma_opcode_code_roundtrip(op: Opcode)
    ensures
        spec_opcode_of_byte(spec_opcode_code(op)) == op,
{
}

/// Case-insensitive comparison of a word against an upper-case mnemonic.
fn word_matches(s: &str, m: &str) -> (r: bool)
    ensures
        r == mnemonic_matches(s@, m@),
{
    let n = s.unicode_len();
    if n != m.unicode_len() {
        return false;
    }
    for i in 0..n
        invariant
            n == s@.len(),
            n == m@.len(),
            forall|j: int| 0 <= j < i ==> #[trigger] ci_char_eq(s@[j], m@[j]),
    {
        let c = s.get_char(i);
        let u = m.get_char(i);
        if !(c == u || c as u32 == u as u32 + 32) {
            proof {
                assert(!ci_char_eq(s@[i as int], m@[i as int]));
            }
            return false;
        }
    }
    true
}

impl core::convert::From<u8> for Opcode {
    /// Decode one bytecode byte; unassigned bytes give `IGL`.
    fn from(value: u8) -> (r: Opcode) {
        match value {
            0 => Opcode::LOAD,
            1 => Opcode::ADD,
            2 => Opcode::SUB,
            3 => Opcode::MUL,
            4 => Opcode::DIV,
            5 => Opcode::JMP,
            6 => Opcode::JMPF,
            7 => Opcode::JMPB,
            8 => Opcode::EQ,
            9 => Opcode::JEQ,
            10 => Opcode::JNEQ,
            11 => Opcode::HLT,
            12 => Opcode::ALOC,
            13 => Opcode::INC,
            14 => Opcode::DEC,
            _ => Opcode::IGL,
        }
    }
}

impl vstd::std_specs::convert::FromSpecImpl<u8> for Opcode {
    open spec fn obeys_from_spec() -> bool {
        true
    }

    open spec fn from_spec(v: u8) -> Opcode {
        spec_opcode_of_byte(v)
    }
}

impl<'a> core::convert::From<&'a str> for Opcode {
    /// Resolve a mnemonic, case-insensitively; unrecognized words give `IGL`.
    fn from(value: &'a str) -> (r: Opcode) {
        if word_matches(value, "LOAD") {
            Opcode::LOAD
        } else if word_matches(value, "ADD") {
            Opcode::ADD
        } else if word_matches(value, "SUB") {
            Opcode::SUB
        } else if word_matches(value, "MUL") {
            Opcode::MUL
        } else if word_matches(value, "DIV") {
            Opcode::DIV
        } else if word_matches(value, "HLT") {
            Opcode::HLT
        } else if word_matches(value, "JMPF") {
            Opcode::JMPF
        } else if word_matches(value, "JMPB") {
            Opcode::JMPB
        } else if word_matches(value, "JMP") {
            Opcode::JMP
        } else if word_matches(value, "EQ") {
            Opcode::EQ
        } else if word_matches(value, "JEQ") {
            Opcode::JEQ
        } else if word_matches(value, "JNEQ") {
            Opcode::JNEQ
        } else if word_matches(value, "ALOC") {
            Opcode::ALOC
        } else if word_matches(value, "INC") {
            Opcode::INC
        } else if word_matches(value, "DEC") {
            Opcode::DEC
        } else {
            Opcode::IGL
        }
    }
}

impl<'a> vstd::std_specs::convert::FromSpecImpl<&'a str> for Opcode {
    open spec fn obeys_from_spec() -> bool {
        true
    }

    open spec fn from_spec(v: &'a str) -> Opcode {
        spec_opcode_of_mnemonic(v@)
    }
}

/// One decoded instruction, as held by the interactive shell.
pub struct Instruction {
    pub opcode: Opcode,
}

impl Instruction {
    pub fn new(opcode: Opcode) -> (r: Instruction)
        ensures
            r.opcode == opcode,
    {
        Instruction { opcode }
    }
}

} // verus!
