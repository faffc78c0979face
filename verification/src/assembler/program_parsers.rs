//! A whole program: one or more instruction lines, parsed greedily until the
//! first line that matches no instruction shape; the unconsumed remainder is
//! reported alongside the records.

use vstd::prelude::*;

use crate::assembler::instruction_parsers::{
    instruction_parser, spec_encodable, spec_encode_instruction, spec_instruction_parser,
    AssemblerInstruction, InstructionModel,
};

verus! {

/// A parsed program: the instruction records of each line, in order.
#[derive(Debug, PartialEq)]
pub struct Program {
    pub instructions: Vec<AssemblerInstruction>,
}

impl View for Program {
    type V = Seq<InstructionModel>;

    open spec fn view(&self) -> Seq<InstructionModel> {
        Seq::new(self.instructions@.len(), |i: int| self.instructions@[i]@)
    }
}

/// Greedy repetition of the instruction grammar from `pos`: the records
/// parsed and the position where the first failure stopped the scan.
pub open spec fn spec_parse_instructions(s: Seq<char>, pos: int) -> (Seq<InstructionModel>, int)
    decreases s.len() - pos,
{
    match spec_instruction_parser(s, pos) {
        None => (Seq::empty(), pos),
        Some(tp) => {
            if pos < tp.1 <= s.len() {
                let rest = spec_parse_instructions(s, tp.1);
                (seq![tp.0] + rest.0, rest.1)
            } else {
                (seq![tp.0], tp.1)
            }
        },
    }
}

/// The program grammar: one or more instruction lines. `None` when not even
/// one line matches.
pub open spec fn spec_program_parser(s: Seq<char>) -> Option<(Seq<InstructionModel>, int)> {
    let r = spec_parse_instructions(s, 0);
    if r.0.len() == 0 {
        None
    } else {
        Some(r)
    }
}

/// Whether every record of a parsed program can be encoded as one
/// fixed-width instruction.
pub open spec fn spec_all_encodable(instrs: Seq<InstructionModel>) -> bool {
    forall|i: int|
        0 <= i < instrs.len() && (#[trigger] instrs[i]).opcode is Some ==> spec_encodable(instrs[i])
}

/// The concatenated encodings of the opcode-bearing records.
pub open spec fn spec_program_bytes(instrs: Seq<InstructionModel>) -> Seq<u8>
    decreases instrs.len(),
{
    if instrs.len() == 0 {
        Seq::empty()
    } else {
        let head = if instrs[0].opcode is Some {
            spec_encode_instruction(instrs[0])
        } else {
            Seq::empty()
        };
        head + spec_program_bytes(instrs.drop_first())
    }
}

/// Parses a whole program from the start of `input`: the records and the
/// position of the unconsumed remainder. `None` when no instruction line
/// matches at all.
pub fn program_parser(input: &str) -> (r: Option<(Program, usize)>)
    ensures
        ({
            let m = spec_program_parser(input@);
            match r {
                Some(pp) => m == Some((pp.0@, pp.1 as int)) && pp.1 <= input@.len(),
                None => m is None,
            }
        }),
{
    let mut instructions: Vec<AssemblerInstruction> = Vec::new();
    let mut pos: usize = 0;
    let ghost whole = spec_parse_instructions(input@, 0);
    proof {
        assert(Seq::new(instructions@.len(), |i: int| instructions@[i]@) =~= Seq::<
            InstructionModel,
        >::empty());
    }
    loop
        invariant
            pos <= input@.len(),
            whole == spec_parse_instructions(input@, 0),
            ({
                let rest = spec_parse_instructions(input@, pos as int);
                whole.0 =~= Seq::new(instructions@.len(), |i: int| instructions@[i]@) + rest.0
                    && whole.1 == rest.1
            }),
        decreases input@.len() - pos,
    {
        match instruction_parser(input, pos) {
            Some((instr, p2)) => {
                let ghost prev = instructions@;
                instructions.push(instr);
                proof {
                    assert(Seq::new(instructions@.len(), |i: int| instructions@[i]@) =~= Seq::new(
                        prev.len(),
                        |i: int| prev[i]@,
                    ).push(instr@));
                }
                pos = p2;
            },
            None => {
                if instructions.len() == 0 {
                    return None;
                }
                let prog = Program { instructions };
                proof {
                    assert(whole.0 =~= prog@);
                }
                return Some((prog, pos));
            },
        }
    }
}

impl Program {
    /// The binary encoding of the program's opcode-bearing records, in
    /// order, four bytes each. Directive and label bookkeeping contribute no
    /// bytes here.
    pub fn to_bytes(&self) -> (r: Vec<u8>)
        requires
            spec_all_encodable(self@),
        ensures
            r@ == spec_program_bytes(self@),
    {
        let mut program: Vec<u8> = Vec::new();
        let n = self.instructions.len();
        proof {
            assert(self@.skip(0) =~= self@);
        }
        for i in 0..n
            invariant
                n == self.instructions@.len(),
                spec_all_encodable(self@),
                spec_program_bytes(self@) =~= program@ + spec_program_bytes(self@.skip(i as int)),
        {
            proof {
                assert(self@.skip(i as int)[0] == self@[i as int]);
                assert(self@.skip(i as int).drop_first() =~= self@.skip(i as int + 1));
            }
            if self.instructions[i].is_opcode() {
                let mut bytes = self.instructions[i].to_bytes();
                program.append(&mut bytes);
            }
        }
        proof {
            assert(self@.skip(n as int) =~= Seq::<InstructionModel>::empty());
            assert(program@ =~= spec_program_bytes(self@));
        }
        program
    }
}

} // verus!
