//! The virtual machine: a register file, a program counter, a heap arena, a
//! condition flag and the raw instruction buffer, together with a
//! fetch-decode-execute step and a run-to-completion loop.
//!
//! The transition relation of the machine is written once, as the
//! specification function [`spec_step`]; every executable entry point is
//! proved to follow it exactly. Conditions that the surrounding process
//! would otherwise turn into a crash (an unknown opcode, a truncated
//! instruction, division by zero, a jump before the start of the program)
//! are surfaced as [`VMError`] values and stop the machine.

use vstd::prelude::*;

use crate::assembler::{spec_has_header, spec_magic_prefix, PIE_HEADER_LENGTH};
use crate::instruction::{spec_opcode_of_byte, Opcode};

verus! {

/// Mathematical snapshot of the whole machine state.
pub ghost struct VmModel {
    pub registers: Seq<i32>,
    pub pc: int,
    pub program: Seq<u8>,
    pub remainder: u32,
    pub equal_flag: bool,
    pub heap: Seq<u8>,
}

/// A fatal execution condition. Once one of these is reported the machine
/// must not continue decoding: past the fault, data could be interpreted as
/// code.
#[derive(Debug, PartialEq, Eq, Structural, Clone, Copy)]
pub enum VMError {
    /// The fetched opcode byte is outside the assigned numeric range.
    UnrecognizedOpcode { code: u8 },
    /// The program buffer ended in the middle of an instruction's operands.
    TruncatedInstruction,
    /// A register operand names a register outside the file of 32.
    InvalidRegister { reg: u8 },
    /// `DIV` with a zero divisor.
    DivisionByZero,
    /// An arithmetic instruction left the 32-bit signed range.
    ArithmeticOverflow,
    /// A jump asked for a program-counter value that no byte offset can
    /// represent: a negative target, a backwards jump past the start, or a
    /// forward jump beyond the addressable range.
    ProgramCounterOutOfRange,
    /// `ALOC` with a negative byte count, or a heap grown past what the
    /// address space can hold.
    HeapOverflow,
}

/// Result of one fetch-decode-execute step over [`VmModel`].
pub ghost enum StepOutcome {
    /// The machine is halted: the counter was already past the end of the
    /// program, or an `HLT` was executed.
    Done { vm: VmModel },
    /// One instruction executed; the machine may keep stepping.
    Next { vm: VmModel },
    /// A fatal condition; the state at the moment the fault was found.
    Fail { vm: VmModel, err: VMError },
}

/// Truncating signed division, the semantics of the machine's `DIV`.
pub open spec fn spec_trunc_div(x: int, d: int) -> int {
    if x == 0 {
        0
    } else if x > 0 && d > 0 {
        x / d
    } else if x < 0 && d < 0 {
        (x * -1) / (d * -1)
    } else if x < 0 {
        ((x * -1) / d) * -1
    } else {
        (x / (d * -1)) * -1
    }
}

/// Remainder of truncating signed division, the value `DIV` leaves in the
/// remainder register (before its 32-bit reinterpretation).
pub open spec fn spec_trunc_rem(x: int, d: int) -> int {
    if x == 0 {
        0
    } else if x > 0 && d > 0 {
        x % d
    } else if x < 0 && d < 0 {
        ((x * -1) % (d * -1)) * -1
    } else if x < 0 {
        ((x * -1) % d) * -1
    } else {
        x % (d * -1)
    }
}

/// `LOAD reg, imm16`: the register receives the 16-bit immediate,
/// zero-extended into 32 bits.
pub open spec fn spec_step_load(m: VmModel) -> StepOutcome {
    let len = m.program.len() as int;
    if m.pc + 2 > len {
        StepOutcome::Fail { vm: (VmModel { pc: m.pc + 1, ..m }), err: VMError::TruncatedInstruction }
    } else if m.pc + 4 > len {
        StepOutcome::Fail { vm: (VmModel { pc: m.pc + 2, ..m }), err: VMError::TruncatedInstruction }
    } else {
        let reg = m.program[m.pc + 1];
        let value: int = m.program[m.pc + 2] * 256 + m.program[m.pc + 3];
        if reg >= 32 {
            StepOutcome::Fail { vm: (VmModel { pc: m.pc + 4, ..m }), err: VMError::InvalidRegister { reg } }
        } else {
            StepOutcome::Next {
                vm: (VmModel {
                    pc: m.pc + 4,
                    registers: m.registers.update(reg as int, value as i32),
                    ..m
                }),
            }
        }
    }
}

/// `ADD`/`SUB`/`MUL`/`DIV` over three register operands: the third names
/// the destination; `DIV` also deposits the truncating remainder.
pub open spec fn spec_step_arith(m: VmModel, op: Opcode) -> StepOutcome {
    let len = m.program.len() as int;
    if m.pc + 2 > len {
        StepOutcome::Fail { vm: (VmModel { pc: m.pc + 1, ..m }), err: VMError::TruncatedInstruction }
    } else if m.pc + 3 > len {
        StepOutcome::Fail { vm: (VmModel { pc: m.pc + 2, ..m }), err: VMError::TruncatedInstruction }
    } else if m.pc + 4 > len {
        StepOutcome::Fail { vm: (VmModel { pc: m.pc + 3, ..m }), err: VMError::TruncatedInstruction }
    } else {
        let b1 = m.program[m.pc + 1];
        let b2 = m.program[m.pc + 2];
        let b3 = m.program[m.pc + 3];
        let m4 = VmModel { pc: m.pc + 4, ..m };
        if b1 >= 32 {
            StepOutcome::Fail { vm: m4, err: VMError::InvalidRegister { reg: b1 } }
        } else if b2 >= 32 {
            StepOutcome::Fail { vm: m4, err: VMError::InvalidRegister { reg: b2 } }
        } else if b3 >= 32 {
            StepOutcome::Fail { vm: m4, err: VMError::InvalidRegister { reg: b3 } }
        } else {
            let x = m.registers[b1 as int] as int;
            let y = m.registers[b2 as int] as int;
            if op == Opcode::DIV && y == 0 {
                StepOutcome::Fail { vm: m4, err: VMError::DivisionByZero }
            } else {
                let res: int = if op == Opcode::ADD {
                    x + y
                } else if op == Opcode::SUB {
                    x - y
                } else if op == Opcode::MUL {
                    x * y
                } else {
                    spec_trunc_div(x, y)
                };
                if res > i32::MAX || res < i32::MIN {
                    StepOutcome::Fail { vm: m4, err: VMError::ArithmeticOverflow }
                } else {
                    let regs = m.registers.update(b3 as int, res as i32);
                    if op == Opcode::DIV {
                        StepOutcome::Next {
                            vm: (VmModel {
                                registers: regs,
                                remainder: spec_trunc_rem(x, y) as u32,
                                ..m4
                            }),
                        }
                    } else {
                        StepOutcome::Next { vm: (VmModel { registers: regs, ..m4 }) }
                    }
                }
            }
        }
    }
}

/// `JMP reg`: absolute jump to the byte offset held in the register.
pub open spec fn spec_step_jmp(m: VmModel) -> StepOutcome {
    let len = m.program.len() as int;
    if m.pc + 2 > len {
        StepOutcome::Fail { vm: (VmModel { pc: m.pc + 1, ..m }), err: VMError::TruncatedInstruction }
    } else {
        let b = m.program[m.pc + 1];
        let m2 = VmModel { pc: m.pc + 2, ..m };
        if b >= 32 {
            StepOutcome::Fail { vm: m2, err: VMError::InvalidRegister { reg: b } }
        } else {
            let t = m.registers[b as int] as int;
            if t < 0 {
                StepOutcome::Fail { vm: m2, err: VMError::ProgramCounterOutOfRange }
            } else {
                StepOutcome::Next { vm: (VmModel { pc: t, ..m }) }
            }
        }
    }
}

/// `JMPF reg`: relative jump forward by the register's value; the counter
/// never decreases.
pub open spec fn spec_step_jmpf(m: VmModel) -> StepOutcome {
    let len = m.program.len() as int;
    if m.pc + 2 > len {
        StepOutcome::Fail { vm: (VmModel { pc: m.pc + 1, ..m }), err: VMError::TruncatedInstruction }
    } else {
        let b = m.program[m.pc + 1];
        let m2 = VmModel { pc: m.pc + 2, ..m };
        if b >= 32 {
            StepOutcome::Fail { vm: m2, err: VMError::InvalidRegister { reg: b } }
        } else {
            let v = m.registers[b as int] as int;
            if v < 0 || m.pc + 2 + v > usize::MAX {
                StepOutcome::Fail { vm: m2, err: VMError::ProgramCounterOutOfRange }
            } else {
                StepOutcome::Next { vm: (VmModel { pc: m.pc + 2 + v, ..m }) }
            }
        }
    }
}

/// `JMPB reg`: relative jump backward; fails predictably, rather than
/// wrapping, when the distance exceeds the current counter.
pub open spec fn spec_step_jmpb(m: VmModel) -> StepOutcome {
    let len = m.program.len() as int;
    if m.pc + 2 > len {
        StepOutcome::Fail { vm: (VmModel { pc: m.pc + 1, ..m }), err: VMError::TruncatedInstruction }
    } else {
        let b = m.program[m.pc + 1];
        let m2 = VmModel { pc: m.pc + 2, ..m };
        if b >= 32 {
            StepOutcome::Fail { vm: m2, err: VMError::InvalidRegister { reg: b } }
        } else {
            let v = m.registers[b as int] as int;
            if v < 0 || v > m.pc + 2 {
                StepOutcome::Fail { vm: m2, err: VMError::ProgramCounterOutOfRange }
            } else {
                StepOutcome::Next { vm: (VmModel { pc: m.pc + 2 - v, ..m }) }
            }
        }
    }
}

/// `EQ reg, reg` (plus one consumed pad byte): sets the equality flag.
pub open spec fn spec_step_eq(m: VmModel) -> StepOutcome {
    let len = m.program.len() as int;
    if m.pc + 2 > len {
        StepOutcome::Fail { vm: (VmModel { pc: m.pc + 1, ..m }), err: VMError::TruncatedInstruction }
    } else if m.pc + 3 > len {
        StepOutcome::Fail { vm: (VmModel { pc: m.pc + 2, ..m }), err: VMError::TruncatedInstruction }
    } else if m.pc + 4 > len {
        StepOutcome::Fail { vm: (VmModel { pc: m.pc + 3, ..m }), err: VMError::TruncatedInstruction }
    } else {
        let b1 = m.program[m.pc + 1];
        let b2 = m.program[m.pc + 2];
        let m4 = VmModel { pc: m.pc + 4, ..m };
        if b1 >= 32 {
            StepOutcome::Fail { vm: m4, err: VMError::InvalidRegister { reg: b1 } }
        } else if b2 >= 32 {
            StepOutcome::Fail { vm: m4, err: VMError::InvalidRegister { reg: b2 } }
        } else {
            StepOutcome::Next {
                vm: (VmModel {
                    equal_flag: m.registers[b1 as int] == m.registers[b2 as int],
                    ..m4
                }),
            }
        }
    }
}

/// `JEQ`/`JNEQ reg`: when the equality flag matches `taken_when`, an absolute
/// jump to the register's value; otherwise the two immediate bytes of the
/// not-taken branch are skipped.
pub open spec fn spec_step_cond_jump(m: VmModel, taken_when: bool) -> StepOutcome {
    let len = m.program.len() as int;
    if m.pc + 2 > len {
        StepOutcome::Fail { vm: (VmModel { pc: m.pc + 1, ..m }), err: VMError::TruncatedInstruction }
    } else {
        let b = m.program[m.pc + 1];
        let m2 = VmModel { pc: m.pc + 2, ..m };
        if b >= 32 {
            StepOutcome::Fail { vm: m2, err: VMError::InvalidRegister { reg: b } }
        } else if m.equal_flag == taken_when {
            let t = m.registers[b as int] as int;
            if t < 0 {
                StepOutcome::Fail { vm: m2, err: VMError::ProgramCounterOutOfRange }
            } else {
                StepOutcome::Next { vm: (VmModel { pc: t, ..m }) }
            }
        } else {
            if m.pc + 4 > usize::MAX {
                StepOutcome::Fail { vm: m2, err: VMError::ProgramCounterOutOfRange }
            } else {
                StepOutcome::Next { vm: (VmModel { pc: m.pc + 4, ..m }) }
            }
        }
    }
}

/// `ALOC reg`: grows the heap arena by the (non-negative) byte count held in
/// the register, zero-filling the new region.
pub open spec fn spec_step_aloc(m: VmModel) -> StepOutcome {
    let len = m.program.len() as int;
    if m.pc + 2 > len {
        StepOutcome::Fail { vm: (VmModel { pc: m.pc + 1, ..m }), err: VMError::TruncatedInstruction }
    } else {
        let b = m.program[m.pc + 1];
        let m2 = VmModel { pc: m.pc + 2, ..m };
        if b >= 32 {
            StepOutcome::Fail { vm: m2, err: VMError::InvalidRegister { reg: b } }
        } else {
            let v = m.registers[b as int] as int;
            if v < 0 || m.heap.len() + v > usize::MAX {
                StepOutcome::Fail { vm: m2, err: VMError::HeapOverflow }
            } else {
                StepOutcome::Next {
                    vm: (VmModel { heap: m.heap + Seq::new(v as nat, |i: int| 0u8), ..m2 }),
                }
            }
        }
    }
}

/// `INC`/`DEC reg`: the register is adjusted by one.
pub open spec fn spec_step_incdec(m: VmModel, increment: bool) -> StepOutcome {
    let len = m.program.len() as int;
    if m.pc + 2 > len {
        StepOutcome::Fail { vm: (VmModel { pc: m.pc + 1, ..m }), err: VMError::TruncatedInstruction }
    } else {
        let b = m.program[m.pc + 1];
        let m2 = VmModel { pc: m.pc + 2, ..m };
        if b >= 32 {
            StepOutcome::Fail { vm: m2, err: VMError::InvalidRegister { reg: b } }
        } else {
            let x = m.registers[b as int] as int;
            let res: int = if increment {
                x + 1
            } else {
                x - 1
            };
            if res > i32::MAX || res < i32::MIN {
                StepOutcome::Fail { vm: m2, err: VMError::ArithmeticOverflow }
            } else {
                StepOutcome::Next {
                    vm: (VmModel { registers: m.registers.update(b as int, res as i32), ..m2 }),
                }
            }
        }
    }
}

/// One fetch-decode-execute step: the machine's whole transition relation.
///
/// When the counter is at or past the end of the buffer the machine is
/// halted. Otherwise one opcode byte is fetched, the counter advances past
/// it, and the opcode's operands are read and acted on; each multi-byte
/// operand read advances the counter by its width.
pub open spec fn spec_step(m: VmModel) -> StepOutcome {
    let len = m.program.len() as int;
    if m.pc >= len {
        StepOutcome::Done { vm: m }
    } else {
        let code = m.program[m.pc];
        match spec_opcode_of_byte(code) {
            Opcode::HLT => StepOutcome::Done { vm: (VmModel { pc: m.pc + 1, ..m }) },
            Opcode::IGL => StepOutcome::Fail {
                vm: (VmModel { pc: m.pc + 1, ..m }),
                err: VMError::UnrecognizedOpcode { code },
            },
            Opcode::LOAD => spec_step_load(m),
            Opcode::ADD => spec_step_arith(m, Opcode::ADD),
            Opcode::SUB => spec_step_arith(m, Opcode::SUB),
            Opcode::MUL => spec_step_arith(m, Opcode::MUL),
            Opcode::DIV => spec_step_arith(m, Opcode::DIV),
            Opcode::JMP => spec_step_jmp(m),
            Opcode::JMPF => spec_step_jmpf(m),
            Opcode::JMPB => spec_step_jmpb(m),
            Opcode::EQ => spec_step_eq(m),
            Opcode::JEQ => spec_step_cond_jump(m, true),
            Opcode::JNEQ => spec_step_cond_jump(m, false),
            Opcode::ALOC => spec_step_aloc(m),
            Opcode::INC => spec_step_incdec(m, true),
            Opcode::DEC => spec_step_incdec(m, false),
        }
    }
}

/// What one executable step must satisfy, given the states before and after
/// and the returned value: exactly the outcome of [`spec_step`].
pub open spec fn step_obeys(pre: VmModel, post: VmModel, r: Result<bool, VMError>) -> bool {
    match spec_step(pre) {
        StepOutcome::Done { vm } => post == vm && r == Result::<bool, VMError>::Ok(true),
        StepOutcome::Next { vm } => post == vm && r == Result::<bool, VMError>::Ok(false),
        StepOutcome::Fail { vm, err } => post == vm && r == Result::<bool, VMError>::Err(err),
    }
}

/// The counter position at which execution starts: just past the header when
/// a valid magic prefix opens the buffer, else wherever the counter already
/// stands (a headerless raw-bytecode buffer, supported for interactive use).
pub open spec fn spec_with_header_pc(m: VmModel) -> VmModel {
    if spec_has_header(m.program) {
        VmModel { pc: PIE_HEADER_LENGTH as int, ..m }
    } else {
        m
    }
}

/// Outcome of running the machine: the final state, the error if one was
/// hit, and whether the halted state was reached.
pub ghost struct RunOutcome {
    pub vm: VmModel,
    pub err: Option<VMError>,
    pub halted: bool,
}

/// Repeated stepping, for at most `fuel` instructions.
pub open spec fn spec_run_from(m: VmModel, fuel: nat) -> RunOutcome
    decreases fuel,
{
    if fuel == 0 {
        RunOutcome { vm: m, err: None, halted: false }
    } else {
        match spec_step(m) {
            StepOutcome::Done { vm } => RunOutcome { vm, err: None, halted: true },
            StepOutcome::Fail { vm, err } => RunOutcome { vm, err: Some(err), halted: false },
            StepOutcome::Next { vm } => spec_run_from(vm, (fuel - 1) as nat),
        }
    }
}

/// The virtual machine.
pub struct VM {
    /// The 32 general-purpose registers, each holding a signed 32-bit value
    /// used polymorphically as address, counter, or value.
    pub registers: [i32; 32],
    /// Program counter: the index of the next byte to be executed.
    pub pc: usize,
    /// The raw instruction buffer.
    pub program: Vec<u8>,
    /// Remainder of the last `DIV`, reinterpreted as unsigned 32-bit.
    pub remainder: u32,
    /// Result of the last `EQ` comparison.
    pub equal_flag: bool,
    /// The heap arena: grows only, never shrinks.
    pub heap: Vec<u8>,
}

impl View for VM {
    type V = VmModel;

    open spec fn view(&self) -> VmModel {
        VmModel {
            registers: self.registers@,
            pc: self.pc as int,
            program: self.program@,
            remainder: self.remainder,
            equal_flag: self.equal_flag,
            heap: self.heap@,
        }
    }
}

impl VM {
    /// A fresh machine: all registers zero, empty program, empty heap.
    pub fn new() -> (r: VM)
        ensures
            r@.registers == Seq::new(32, |i: int| 0i32),
            r@.pc == 0,
            r@.program == Seq::<u8>::empty(),
            r@.remainder == 0,
            r@.equal_flag == false,
            r@.heap == Seq::<u8>::empty(),
    {
        let vm = VM {
            registers: [0; 32],
            pc: 0,
            program: Vec::new(),
            remainder: 0,
            equal_flag: false,
            heap: Vec::new(),
        };
        proof {
            assert(vm.registers@ =~= Seq::new(32, |i: int| 0i32));
        }
        vm
    }

    /// Appends one byte to the instruction buffer.
    pub fn add_byte(&mut self, byte: u8)
        ensures
            final(self)@ == (VmModel { program: old(self)@.program.push(byte), ..old(self)@ }),
    {
        self.program.push(byte);
    }

    /// Appends a whole buffer of bytes to the instruction buffer.
    pub fn add_bytes(&mut self, mut bytes: Vec<u8>)
        ensures
            final(self)@ == (VmModel { program: old(self)@.program + bytes@, ..old(self)@ }),
    {
        self.program.append(&mut bytes);
    }

    /// Checks for the magic prefix; when present, places the counter just
    /// past the 64-byte header, the entry point of a program image.
    fn verify_header(&mut self) -> (r: bool)
        ensures
            r == spec_has_header(old(self)@.program),
            final(self)@ == spec_with_header_pc(old(self)@),
    {
        if self.program.len() < 4 {
            proof {
                assert(!spec_has_header(self@.program));
            }
            return false;
        }
        let ok = self.program[0] == 45 && self.program[1] == 50 && self.program[2] == 49
            && self.program[3] == 45;
        proof {
            assert(ok == (self@.program.subrange(0, 4) =~= spec_magic_prefix()));
        }
        if ok {
            self.pc = PIE_HEADER_LENGTH;
            true
        } else {
            false
        }
    }

    /// Fetches the opcode byte under the counter and advances past it.
    fn decode_opcode(&mut self) -> (r: Opcode)
        requires
            old(self)@.pc < old(self)@.program.len(),
        ensures
            r == spec_opcode_of_byte(old(self)@.program[old(self)@.pc]),
            final(self)@ == (VmModel { pc: old(self)@.pc + 1, ..old(self)@ }),
    {
        let len = self.program.len();
        let opcode = Opcode::from(self.program[self.pc]);
        proof {
            assert(self.pc < len);
        }
        self.pc = self.pc + 1;
        opcode
    }

    /// Reads one operand byte, advancing the counter with the read; `None`
    /// when the buffer ends first.
    fn next_8_bits(&mut self) -> (r: Option<u8>)
        ensures
            old(self)@.pc < old(self)@.program.len() ==> r == Some(
                old(self)@.program[old(self)@.pc],
            ) && final(self)@ == (VmModel { pc: old(self)@.pc + 1, ..old(self)@ }),
            old(self)@.pc >= old(self)@.program.len() ==> r == None::<u8> && final(self)@ == old(self)@,
    {
        if self.pc < self.program.len() {
            let b = self.program[self.pc];
            self.pc = self.pc + 1;
            Some(b)
        } else {
            None
        }
    }

    /// Reads one 16-bit big-endian operand, advancing the counter by two;
    /// `None` when fewer than two bytes remain.
    fn next_16_bits(&mut self) -> (r: Option<u16>)
        ensures
            old(self)@.pc + 2 <= old(self)@.program.len() ==> r == Some(
                (old(self)@.program[old(self)@.pc] * 256 + old(self)@.program[old(self)@.pc + 1]) as u16,
            ) && final(self)@ == (VmModel { pc: old(self)@.pc + 2, ..old(self)@ }),
            old(self)@.pc + 2 > old(self)@.program.len() ==> r == None::<u16> && final(self)@ == old(self)@,
    {
        if self.pc < self.program.len() && self.program.len() - self.pc >= 2 {
            let hi = self.program[self.pc];
            let lo = self.program[self.pc + 1];
            self.pc = self.pc + 2;
            Some((hi as u16) * 256 + (lo as u16))
        } else {
            None
        }
    }

    /// One fetch-decode-execute step, following [`spec_step`] exactly.
    /// `Ok(true)` reports the halted state.
    fn execute_instruction(&mut self) -> (r: Result<bool, VMError>)
        ensures
            step_obeys(old(self)@, final(self)@, r),
    {
        if self.pc >= self.program.len() {
            return Ok(true);
        }
        let code = self.program[self.pc];
        let opcode = self.decode_opcode();
        match opcode {
            Opcode::HLT => Ok(true),
            Opcode::IGL => Err(VMError::UnrecognizedOpcode { code }),
            Opcode::LOAD => {
                let register = match self.next_8_bits() {
                    Some(b) => b,
                    None => { return Err(VMError::TruncatedInstruction); },
                };
                let number = match self.next_16_bits() {
                    Some(v) => v,
                    None => { return Err(VMError::TruncatedInstruction); },
                };
                if register >= 32 {
                    return Err(VMError::InvalidRegister { reg: register });
                }
                self.registers[register as usize] = number as i32;
                Ok(false)
            },
            Opcode::ADD | Opcode::SUB | Opcode::MUL | Opcode::DIV => {
                let b1 = match self.next_8_bits() {
                    Some(b) => b,
                    None => { return Err(VMError::TruncatedInstruction); },
                };
                let b2 = match self.next_8_bits() {
                    Some(b) => b,
                    None => { return Err(VMError::TruncatedInstruction); },
                };
                let b3 = match self.next_8_bits() {
                    Some(b) => b,
                    None => { return Err(VMError::TruncatedInstruction); },
                };
                if b1 >= 32 {
                    return Err(VMError::InvalidRegister { reg: b1 });
                }
                if b2 >= 32 {
                    return Err(VMError::InvalidRegister { reg: b2 });
                }
                if b3 >= 32 {
                    return Err(VMError::InvalidRegister { reg: b3 });
                }
                let x = self.registers[b1 as usize];
                let y = self.registers[b2 as usize];
                match opcode {
                    Opcode::ADD => {
                        let res = match x.checked_add(y) {
                            Some(v) => v,
                            None => { return Err(VMError::ArithmeticOverflow); },
                        };
                        self.registers[b3 as usize] = res;
                        Ok(false)
                    },
                    Opcode::SUB => {
                        let res = match x.checked_sub(y) {
                            Some(v) => v,
                            None => { return Err(VMError::ArithmeticOverflow); },
                        };
                        self.registers[b3 as usize] = res;
                        Ok(false)
                    },
                    Opcode::MUL => {
                        let res = match x.checked_mul(y) {
                            Some(v) => v,
                            None => { return Err(VMError::ArithmeticOverflow); },
                        };
                        self.registers[b3 as usize] = res;
                        Ok(false)
                    },
                    _ => {
                        if y == 0 {
                            return Err(VMError::DivisionByZero);
                        }
                        let q = match x.checked_div(y) {
                            Some(v) => v,
                            None => { return Err(VMError::ArithmeticOverflow); },
                        };
                        let rem = match x.checked_rem(y) {
                            Some(v) => v,
                            None => {
                                proof {
                                    if x as int == i32::MIN && y as int == -1 {
                                        assert((x as int) * -1 == 2147483648int);
                                        assert((y as int) * -1 == 1int);
                                        assert(2147483648int / 1int == 2147483648int);
                                    }
                                }
                                return Err(VMError::ArithmeticOverflow);
                            },
                        };
                        self.registers[b3 as usize] = q;
                        self.remainder = #[verifier::truncate] (rem as u32);
                        Ok(false)
                    },
                }
            },
            Opcode::JMP => {
                let b = match self.next_8_bits() {
                    Some(b) => b,
                    None => { return Err(VMError::TruncatedInstruction); },
                };
                if b >= 32 {
                    return Err(VMError::InvalidRegister { reg: b });
                }
                let target = self.registers[b as usize];
                if target < 0 {
                    return Err(VMError::ProgramCounterOutOfRange);
                }
                self.pc = target as usize;
                Ok(false)
            },
            Opcode::JMPF => {
                let b = match self.next_8_bits() {
                    Some(b) => b,
                    None => { return Err(VMError::TruncatedInstruction); },
                };
                if b >= 32 {
                    return Err(VMError::InvalidRegister { reg: b });
                }
                let value = self.registers[b as usize];
                if value < 0 {
                    return Err(VMError::ProgramCounterOutOfRange);
                }
                let distance = value as usize;
                if distance > usize::MAX - self.pc {
                    return Err(VMError::ProgramCounterOutOfRange);
                }
                self.pc = self.pc + distance;
                Ok(false)
            },
            Opcode::JMPB => {
                let b = match self.next_8_bits() {
                    Some(b) => b,
                    None => { return Err(VMError::TruncatedInstruction); },
                };
                if b >= 32 {
                    return Err(VMError::InvalidRegister { reg: b });
                }
                let value = self.registers[b as usize];
                if value < 0 {
                    return Err(VMError::ProgramCounterOutOfRange);
                }
                let distance = value as usize;
                if distance > self.pc {
                    return Err(VMError::ProgramCounterOutOfRange);
                }
                self.pc = self.pc - distance;
                Ok(false)
            },
            Opcode::EQ => {
                let b1 = match self.next_8_bits() {
                    Some(b) => b,
                    None => { return Err(VMError::TruncatedInstruction); },
                };
                let b2 = match self.next_8_bits() {
                    Some(b) => b,
                    None => { return Err(VMError::TruncatedInstruction); },
                };
                match self.next_8_bits() {
                    Some(_) => (),
                    None => { return Err(VMError::TruncatedInstruction); },
                };
                if b1 >= 32 {
                    return Err(VMError::InvalidRegister { reg: b1 });
                }
                if b2 >= 32 {
                    return Err(VMError::InvalidRegister { reg: b2 });
                }
                self.equal_flag = self.registers[b1 as usize] == self.registers[b2 as usize];
                Ok(false)
            },
            Opcode::JEQ | Opcode::JNEQ => {
                let b = match self.next_8_bits() {
                    Some(b) => b,
                    None => { return Err(VMError::TruncatedInstruction); },
                };
                if b >= 32 {
                    return Err(VMError::InvalidRegister { reg: b });
                }
                let taken = if opcode == Opcode::JEQ {
                    self.equal_flag
                } else {
                    !self.equal_flag
                };
                if taken {
                    let target = self.registers[b as usize];
                    if target < 0 {
                        return Err(VMError::ProgramCounterOutOfRange);
                    }
                    self.pc = target as usize;
                } else {
                    if usize::MAX - self.pc < 2 {
                        return Err(VMError::ProgramCounterOutOfRange);
                    }
                    self.pc = self.pc + 2;
                }
                Ok(false)
            },
            Opcode::ALOC => {
                let b = match self.next_8_bits() {
                    Some(b) => b,
                    None => { return Err(VMError::TruncatedInstruction); },
                };
                if b >= 32 {
                    return Err(VMError::InvalidRegister { reg: b });
                }
                let value = self.registers[b as usize];
                if value < 0 {
                    return Err(VMError::HeapOverflow);
                }
                let count = value as usize;
                if count > usize::MAX - self.heap.len() {
                    return Err(VMError::HeapOverflow);
                }
                let ghost pre = self@;
                proof {
                    assert(pre.heap + Seq::new(0nat, |j: int| 0u8) =~= pre.heap);
                }
                let mut i: usize = 0;
                while i < count
                    invariant
                        i <= count,
                        self@ == (VmModel {
                            heap: pre.heap + Seq::new(i as nat, |j: int| 0u8),
                            ..pre
                        }),
                    decreases count - i,
                {
                    self.heap.push(0);
                    i = i + 1;
                    proof {
                        assert(self@.heap =~= pre.heap + Seq::new(i as nat, |j: int| 0u8));
                    }
                }
                Ok(false)
            },
            Opcode::INC | Opcode::DEC => {
                let b = match self.next_8_bits() {
                    Some(b) => b,
                    None => { return Err(VMError::TruncatedInstruction); },
                };
                if b >= 32 {
                    return Err(VMError::InvalidRegister { reg: b });
                }
                let x = self.registers[b as usize];
                let res = if opcode == Opcode::INC {
                    match x.checked_add(1) {
                        Some(v) => v,
                        None => { return Err(VMError::ArithmeticOverflow); },
                    }
                } else {
                    match x.checked_sub(1) {
                        Some(v) => v,
                        None => { return Err(VMError::ArithmeticOverflow); },
                    }
                };
                self.registers[b as usize] = res;
                Ok(false)
            },
        }
    }

    /// Executes exactly one step and returns control, for interactive
    /// single-step use. `Ok(true)` reports the halted state.
    pub fn run_once(&mut self) -> (r: Result<bool, VMError>)
        ensures
            step_obeys(old(self)@, final(self)@, r),
    {
        self.execute_instruction()
    }

    /// Runs to completion: checks for a header (entering at byte 64 when one
    /// is present), then steps until the machine halts or a fatal condition
    /// is hit.
    pub fn run(&mut self) -> (r: Result<(), VMError>)
        ensures
            ({
                let out = spec_run_from(spec_with_header_pc(old(self)@), u64::MAX as nat);
                &&& final(self)@ == out.vm
                &&& match r {
                    Ok(_) => out.err is None,
                    Err(e) => out.err == Some(e),
                }
            }),
    {
        self.verify_header();
        let mut fuel: u64 = u64::MAX;
        loop
            invariant
                spec_run_from(spec_with_header_pc(old(self)@), u64::MAX as nat) == spec_run_from(
                    self@,
                    fuel as nat,
                ),
            decreases fuel,
        {
            if fuel == 0 {
                return Ok(());
            }
            match self.execute_instruction() {
                Ok(true) => { return Ok(()); },
                Ok(false) => { fuel = fuel - 1; },
                Err(e) => { return Err(e); },
            }
        }
    }
}

impl core::default::Default for VM {
    /// Same as [`VM::new`]: a fresh machine.
    fn default() -> (r: VM)
        ensures
            r@.registers == Seq::new(32, |i: int| 0i32),
            r@.pc == 0,
            r@.program == Seq::<u8>::empty(),
            r@.remainder == 0,
            r@.equal_flag == false,
            r@.heap == Seq::<u8>::empty(),
    {
        VM::new()
    }
}

/// A forward jump never decreases the program counter: from the position
/// just past the opcode and its register operand, the counter advances by
/// exactly the register's value, and a value no byte offset can absorb — a
/// negative one, or one past the addressable range — fails predictably
/// instead.
pub proof fn lemma_jmpf_advances(m: VmModel)
    requires
        0 <= m.pc,
        m.pc + 2 <= m.program.len(),
        spec_opcode_of_byte(m.program[m.pc]) == Opcode::JMPF,
        m.program[m.pc + 1] < 32,
    ensures
        ({
            let v = m.registers[m.program[m.pc + 1] as int] as int;
            if 0 <= v && m.pc + 2 + v <= usize::MAX {
                spec_step(m) matches StepOutcome::Next { vm } && vm.pc == m.pc + 2 + v && vm.pc
                    >= m.pc + 2
            } else {
                spec_step(m) matches StepOutcome::Fail { vm, err }
                    && err == VMError::ProgramCounterOutOfRange
            }
        }),
{
}

/// A backward jump decreases the counter by exactly the register's value,
/// and fails predictably — never wrapping — exactly when that value is
/// negative or exceeds the counter position past the operand.
pub proof fn lemma_jmpb_bounds(m: VmModel)
    requires
        0 <= m.pc,
        m.pc + 2 <= m.program.len(),
        spec_opcode_of_byte(m.program[m.pc]) == Opcode::JMPB,
        m.program[m.pc + 1] < 32,
    ensures
        ({
            let v = m.registers[m.program[m.pc + 1] as int] as int;
            if 0 <= v <= m.pc + 2 {
                spec_step(m) matches StepOutcome::Next { vm } && vm.pc == m.pc + 2 - v
            } else {
                spec_step(m) matches StepOutcome::Fail { vm, err }
                    && err == VMError::ProgramCounterOutOfRange
            }
        }),
{
}

} // verus!
