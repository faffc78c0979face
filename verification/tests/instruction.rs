use iridium::instruction::{Instruction, Opcode};

#[test]
fn test_create_hlt() {
    let opcode = Opcode::HLT;
    assert_eq!(opcode, Opcode::HLT);
}

#[test]
fn test_create_instruction() {
    let instruction = Instruction::new(Opcode::HLT);
    assert_eq!(instruction.opcode, Opcode::HLT);
}

#[test]
fn test_str_to_opcode() {
    let str = "load";
    assert_eq!(Opcode::LOAD, Opcode::from(str));
    let str = "LOAD";
    assert_eq!(Opcode::LOAD, Opcode::from(str));
    let str = "ADD";
    assert_eq!(Opcode::ADD, Opcode::from(str));
    let str = "illegal";
    assert_eq!(Opcode::IGL, Opcode::from(str));
}

#[test]
fn test_byte_to_opcode() {
    assert_eq!(Opcode::from(0u8), Opcode::LOAD);
    assert_eq!(Opcode::from(4u8), Opcode::DIV);
    assert_eq!(Opcode::from(11u8), Opcode::HLT);
    assert_eq!(Opcode::from(14u8), Opcode::DEC);
    assert_eq!(Opcode::from(200u8), Opcode::IGL);
}

#[test]
fn test_opcode_code_roundtrip() {
    let all = [
        Opcode::LOAD,
        Opcode::ADD,
        Opcode::SUB,
        Opcode::MUL,
        Opcode::DIV,
        Opcode::HLT,
        Opcode::JMP,
        Opcode::JMPF,
        Opcode::JMPB,
        Opcode::EQ,
        Opcode::JEQ,
        Opcode::JNEQ,
        Opcode::ALOC,
        Opcode::INC,
        Opcode::DEC,
        Opcode::IGL,
    ];
    for op in all {
        assert_eq!(Opcode::from(op.code()), op);
    }
}

#[test]
fn test_mixed_case_mnemonics() {
    assert_eq!(Opcode::from("JmPf"), Opcode::JMPF);
    assert_eq!(Opcode::from("aloc"), Opcode::ALOC);
    assert_eq!(Opcode::from("Inc"), Opcode::INC);
    assert_eq!(Opcode::from("dec"), Opcode::DEC);
    assert_eq!(Opcode::from("jmp"), Opcode::JMP);
}
