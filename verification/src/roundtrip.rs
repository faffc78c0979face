//! The round-trip law: a straight-line program — loads, arithmetic and
//! halts only, no labels, no directives — assembles to an image whose
//! execution terminates in the halted state with exactly the register file
//! that direct evaluation of the source records gives.

use vstd::prelude::*;

use crate::assembler::instruction_parsers::{
    spec_encodable, spec_encode_instruction, spec_instruction_code, InstructionModel,
};
use crate::assembler::program_parsers::{spec_program_bytes, spec_program_parser};
use crate::assembler::{
    spec_assemble, spec_first_phase, spec_has_header, spec_pie_header, spec_second_phase,
    AssembleResult, AssemblerModel, AssemblerPhase, EmitResult, PhaseResult, TokenModel,
};
use crate::instruction::{spec_opcode_code, Opcode};
use crate::vm::{
    spec_run_from, spec_step, spec_trunc_div, spec_trunc_rem, spec_with_header_pc, RunOutcome,
    StepOutcome, VmModel,
};

verus! {

/// A straight-line record: no label, no directive, and an opcode among
/// `LOAD`, the four arithmetic operations and `HLT`, with the operand shape
/// that opcode demands and every register index within the file.
pub open spec fn spec_simple_record(i: InstructionModel) -> bool {
    &&& i.label is None
    &&& i.directive is None
    &&& match i.opcode {
        Some(TokenModel::Op { code }) => {
            if code == Opcode::HLT {
                i.operand1 is None && i.operand2 is None && i.operand3 is None
            } else if code == Opcode::LOAD {
                &&& i.operand1 matches Some(TokenModel::Register { reg_num }) && reg_num < 32
                &&& i.operand2 matches Some(TokenModel::IntegerOperand { .. })
                &&& i.operand3 is None
            } else if code == Opcode::ADD || code == Opcode::SUB || code == Opcode::MUL || code
                == Opcode::DIV {
                &&& i.operand1 matches Some(TokenModel::Register { reg_num: r1 }) && r1 < 32
                &&& i.operand2 matches Some(TokenModel::Register { reg_num: r2 }) && r2 < 32
                &&& i.operand3 matches Some(TokenModel::Register { reg_num: r3 }) && r3 < 32
            } else {
                false
            }
        },
        _ => false,
    }
}

/// Whether every record of a program is straight-line.
pub open spec fn spec_all_simple(instrs: Seq<InstructionModel>) -> bool {
    forall|k: int| 0 <= k < instrs.len() ==> spec_simple_record(#[trigger] instrs[k])
}

/// Direct evaluation of one straight-line record over a register file and
/// the remainder register; `None` when its arithmetic is undefined (overflow
/// or division by zero), the cases the machine traps on.
pub open spec fn spec_eval_record(regs: Seq<i32>, rem: u32, i: InstructionModel) -> Option<
    (Seq<i32>, u32),
> {
    match i.opcode {
        Some(TokenModel::Op { code }) => {
            if code == Opcode::LOAD {
                match (i.operand1, i.operand2) {
                    (
                        Some(TokenModel::Register { reg_num }),
                        Some(TokenModel::IntegerOperand { value }),
                    ) => Some((regs.update(reg_num as int, (value as u16) as i32), rem)),
                    _ => None,
                }
            } else {
                match (i.operand1, i.operand2, i.operand3) {
                    (
                        Some(TokenModel::Register { reg_num: r1 }),
                        Some(TokenModel::Register { reg_num: r2 }),
                        Some(TokenModel::Register { reg_num: r3 }),
                    ) => {
                        let x = regs[r1 as int] as int;
                        let y = regs[r2 as int] as int;
                        if code == Opcode::DIV && y == 0 {
                            None
                        } else {
                            let res: int = if code == Opcode::ADD {
                                x + y
                            } else if code == Opcode::SUB {
                                x - y
                            } else if code == Opcode::MUL {
                                x * y
                            } else {
                                spec_trunc_div(x, y)
                            };
                            if res > i32::MAX || res < i32::MIN {
                                None
                            } else if code == Opcode::DIV {
                                Some(
                                    (
                                        regs.update(r3 as int, res as i32),
                                        spec_trunc_rem(x, y) as u32,
                                    ),
                                )
                            } else {
                                Some((regs.update(r3 as int, res as i32), rem))
                            }
                        }
                    },
                    _ => None,
                }
            }
        },
        _ => None,
    }
}

/// Direct evaluation of a straight-line program, stopping at the first
/// `HLT`.
pub open spec fn spec_eval_program(regs: Seq<i32>, rem: u32, instrs: Seq<InstructionModel>) -> Option<
    (Seq<i32>, u32),
>
    decreases instrs.len(),
{
    if instrs.len() == 0 {
        Some((regs, rem))
    } else if spec_instruction_code(instrs[0]) == spec_opcode_code(Opcode::HLT) {
        Some((regs, rem))
    } else {
        match spec_eval_record(regs, rem, instrs[0]) {
            None => None,
            Some(next) => spec_eval_program(next.0, next.1, instrs.drop_first()),
        }
    }
}

/// Where the counter halts: one byte past the first `HLT`, or at the end of
/// the program when no record is an `HLT`.
pub open spec fn spec_halt_pc(pc0: int, instrs: Seq<InstructionModel>) -> int
    decreases instrs.len(),
{
    if instrs.len() == 0 {
        pc0
    } else if spec_instruction_code(instrs[0]) == spec_opcode_code(Opcode::HLT) {
        pc0 + 1
    } else {
        spec_halt_pc(pc0 + 4, instrs.drop_first())
    }
}

/// A straight-line record fits the four-byte encoding.
pub proof fn lemma_simple_encodable(i: InstructionModel)
    requires
        spec_simple_record(i),
    ensures
        spec_encodable(i),
        spec_encode_instruction(i).len() == 4,
{
    assert(spec_encode_instruction(i).len() == 4);
}

/// The exact bytes of a straight-line record's encoding.
pub proof fn lemma_encode_simple(i: InstructionModel)
    requires
        spec_simple_record(i),
    ensures
        spec_encode_instruction(i).len() == 4,
        spec_encode_instruction(i)[0] == spec_instruction_code(i),
        i.opcode matches Some(TokenModel::Op { code }) && code == Opcode::LOAD ==> ({
            &&& i.operand1 matches Some(TokenModel::Register { reg_num })
                && spec_encode_instruction(i)[1] == reg_num
            &&& i.operand2 matches Some(TokenModel::IntegerOperand { value })
                && spec_encode_instruction(i)[2] == ((value as u16) / 256) as u8
                && spec_encode_instruction(i)[3] == ((value as u16) % 256) as u8
        }),
        i.opcode matches Some(TokenModel::Op { code }) && (code == Opcode::ADD || code
            == Opcode::SUB || code == Opcode::MUL || code == Opcode::DIV) ==> ({
            &&& i.operand1 matches Some(TokenModel::Register { reg_num: r1 })
                && spec_encode_instruction(i)[1] == r1
            &&& i.operand2 matches Some(TokenModel::Register { reg_num: r2 })
                && spec_encode_instruction(i)[2] == r2
            &&& i.operand3 matches Some(TokenModel::Register { reg_num: r3 })
                && spec_encode_instruction(i)[3] == r3
        }),
{
}

/// Executing the remaining straight-line bytes: from a counter standing at
/// the first remaining encoding, the machine steps through every record,
/// halts, and carries exactly the registers and remainder that direct
/// evaluation gives. Program, heap and flag are untouched.
pub proof fn lemma_straightline_execution(m: VmModel, instrs: Seq<InstructionModel>, fuel: nat)
    requires
        m.registers.len() == 32,
        0 <= m.pc <= m.program.len(),
        m.program.skip(m.pc) == spec_program_bytes(instrs),
        spec_all_simple(instrs),
        spec_eval_program(m.registers, m.remainder, instrs) is Some,
        fuel > instrs.len(),
    ensures
        ({
            let ev = spec_eval_program(m.registers, m.remainder, instrs);
            spec_run_from(m, fuel) == RunOutcome {
                vm: VmModel {
                    registers: ev->Some_0.0,
                    remainder: ev->Some_0.1,
                    pc: spec_halt_pc(m.pc, instrs),
                    ..m
                },
                err: None,
                halted: true,
            }
        }),
    decreases instrs.len(),
{
    let bytes = spec_program_bytes(instrs);
    if instrs.len() == 0 {
        assert(bytes.len() == 0);
        assert(m.pc == m.program.len());
        assert(spec_step(m) == StepOutcome::Done { vm: m });
        assert(VmModel { registers: m.registers, remainder: m.remainder, pc: m.pc, ..m } == m);
    } else {
        let i0 = instrs[0];
        assert(spec_simple_record(i0));
        lemma_simple_encodable(i0);
        lemma_encode_simple(i0);
        let enc = spec_encode_instruction(i0);
        let rest = instrs.drop_first();
        assert(spec_program_bytes(instrs) == enc + spec_program_bytes(rest));
        assert(m.program.len() - m.pc == bytes.len());
        // the four bytes under the counter are the first record's encoding
        assert forall|j: int| 0 <= j < 4 implies m.program[m.pc + j] == enc[j] by {
            assert(m.program.skip(m.pc)[j] == m.program[m.pc + j]);
            assert(bytes[j] == enc[j]);
        }
        let code = spec_instruction_code(i0);
        assert(m.program[m.pc] == code);
        assert(crate::instruction::spec_opcode_of_byte(code) == match i0.opcode {
            Some(TokenModel::Op { code: c }) => c,
            _ => Opcode::IGL,
        });
        if code == spec_opcode_code(Opcode::HLT) {
            assert(spec_step(m) == StepOutcome::Done {
                vm: VmModel { pc: m.pc + 1, ..m },
            });
        } else {
            let ev0 = spec_eval_record(m.registers, m.remainder, i0);
            assert(ev0 is Some);
            let m2 = VmModel {
                registers: ev0->Some_0.0,
                remainder: ev0->Some_0.1,
                pc: m.pc + 4,
                ..m
            };
            assert(spec_step(m) == StepOutcome::Next { vm: m2 });
            assert(m2.program.skip(m2.pc) =~= spec_program_bytes(rest)) by {
                assert forall|j: int| 0 <= j < m2.program.len() - m2.pc implies m2.program.skip(
                    m2.pc,
                )[j] == spec_program_bytes(rest)[j] by {
                    assert(m2.program.skip(m2.pc)[j] == m.program[m.pc + 4 + j]);
                    assert(m.program[m.pc + 4 + j] == m.program.skip(m.pc)[j + 4]);
                    assert(bytes[j + 4] == spec_program_bytes(rest)[j]);
                }
            }
            assert(spec_all_simple(rest)) by {
                assert forall|k: int| 0 <= k < rest.len() implies spec_simple_record(
                    #[trigger] rest[k],
                ) by {
                    assert(rest[k] == instrs[k + 1]);
                }
            }
            lemma_straightline_execution(m2, rest, (fuel - 1) as nat);
            assert(spec_run_from(m, fuel) == spec_run_from(m2, (fuel - 1) as nat));
        }
    }
}

/// A program of straight-line records passes the discovery pass unchanged:
/// it declares no labels and names no sections.
pub proof fn lemma_first_phase_simple(state: AssemblerModel, instrs: Seq<InstructionModel>)
    requires
        spec_all_simple(instrs),
    ensures
        spec_first_phase(state, instrs) == (PhaseResult::Pass { state }),
    decreases instrs.len(),
{
    if instrs.len() > 0 {
        assert(spec_simple_record(instrs[0]));
        assert(spec_all_simple(instrs.drop_first())) by {
            assert forall|k: int| 0 <= k < instrs.drop_first().len() implies spec_simple_record(
                #[trigger] instrs.drop_first()[k],
            ) by {
                assert(instrs.drop_first()[k] == instrs[k + 1]);
            }
        }
        lemma_first_phase_simple(state, instrs.drop_first());
    }
}

/// The emission pass over straight-line records emits exactly their
/// concatenated encodings.
pub proof fn lemma_second_phase_simple(state: AssemblerModel, instrs: Seq<InstructionModel>)
    requires
        spec_all_simple(instrs),
    ensures
        spec_second_phase(state, instrs) matches EmitResult::Pass { bytes, .. } && bytes
            == spec_program_bytes(instrs),
    decreases instrs.len(),
{
    if instrs.len() > 0 {
        assert(spec_simple_record(instrs[0]));
        lemma_simple_encodable(instrs[0]);
        assert(spec_all_simple(instrs.drop_first())) by {
            assert forall|k: int| 0 <= k < instrs.drop_first().len() implies spec_simple_record(
                #[trigger] instrs.drop_first()[k],
            ) by {
                assert(instrs.drop_first()[k] == instrs[k + 1]);
            }
        }
        let stepped = crate::assembler::spec_second_phase_record(state, instrs[0]);
        assert(stepped matches EmitResult::Pass { bytes, .. } && bytes == spec_encode_instruction(
            instrs[0],
        ));
        match stepped {
            EmitResult::Pass { state: s2, bytes } => {
                lemma_second_phase_simple(s2, instrs.drop_first());
            },
            EmitResult::Fail { .. } => {},
        }
    }
}

/// Assembly of a straight-line program always succeeds: the discovery pass
/// finds no labels and the emission pass encodes every record, so the image
/// is the header followed by the records' encodings.
pub proof fn lemma_assemble_simple_succeeds(a0: AssemblerModel, source: Seq<char>)
    requires
        spec_program_parser(source) matches Some(pp) && pp.1 >= source.len() && spec_all_simple(
            pp.0,
        ),
    ensures
        ({
            let pp = spec_program_parser(source)->Some_0;
            spec_assemble(a0, source) matches AssembleResult::Pass { image, .. } && image
                == spec_pie_header() + spec_program_bytes(pp.0)
        }),
{
    let pp = spec_program_parser(source)->Some_0;
    lemma_first_phase_simple(a0, pp.0);
    let ready = AssemblerModel {
        phase: AssemblerPhase::Second,
        current_instruction: 0,
        ..a0
    };
    lemma_second_phase_simple(ready, pp.0);
}

/// The round-trip law. Take any source text whose parse consumes the whole
/// text and yields only straight-line records, on which direct evaluation
/// from a 32-register file is defined (no division by zero, no overflow).
/// Then assembly succeeds, and a machine that holds the produced image as
/// its program — the counter entering past the header — runs to the halted
/// state, never faulting, with exactly the evaluated registers and
/// remainder.
pub proof fn lemma_assemble_then_run(
    a0: AssemblerModel,
    source: Seq<char>,
    vm0: VmModel,
    fuel: nat,
)
    requires
        vm0.registers.len() == 32,
        spec_program_parser(source) matches Some(pp) && pp.1 >= source.len() && spec_all_simple(
            pp.0,
        ) && spec_eval_program(vm0.registers, vm0.remainder, pp.0) is Some && fuel > pp.0.len(),
        spec_assemble(a0, source) matches AssembleResult::Pass { image, .. } && vm0.program
            == image,
    ensures
        spec_has_header(vm0.program),
        ({
            let pp = spec_program_parser(source)->Some_0;
            let ev = spec_eval_program(vm0.registers, vm0.remainder, pp.0);
            spec_run_from(spec_with_header_pc(vm0), fuel) == RunOutcome {
                vm: VmModel {
                    registers: ev->Some_0.0,
                    remainder: ev->Some_0.1,
                    pc: spec_halt_pc(64, pp.0),
                    ..vm0
                },
                err: None,
                halted: true,
            }
        }),
{
    let pp = spec_program_parser(source)->Some_0;
    let instrs = pp.0;
    lemma_assemble_simple_succeeds(a0, source);
    let body = spec_program_bytes(instrs);
    assert(vm0.program =~= spec_pie_header() + body);
    assert(spec_pie_header().len() == 64);
    assert(vm0.program.subrange(0, 4) =~= crate::assembler::spec_magic_prefix());
    assert(spec_has_header(vm0.program));
    let started = spec_with_header_pc(vm0);
    assert(started == VmModel { pc: 64, ..vm0 });
    assert(started.program.skip(64) =~= body);
    lemma_straightline_execution(started, instrs, fuel);
}

} // verus!
