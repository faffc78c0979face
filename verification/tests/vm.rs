use iridium::vm::{VMError, VM};

#[test]
fn test_createvm() {
    let test_vm = VM::new();
    assert_eq!(test_vm.registers[0], 0)
}

#[test]
fn test_opcode_hlt() {
    let mut test_vm = VM::new();
    let test_bytes = vec![11, 0, 0, 0];
    test_vm.program = test_bytes;
    let _ = test_vm.run();
    assert_eq!(test_vm.pc, 1);
}

#[test]
fn test_load_opcode() {
    let mut test_vm = VM::new();
    test_vm.program = vec![0, 0, 1, 244];
    let _ = test_vm.run();
    assert_eq!(test_vm.registers[0], 500);
}

#[test]
fn test_opcode_add() {
    let mut test_vm = VM::new();
    let test_bytes = vec![
        0, 0, 0, 10, // LOAD $0 #10
        0, 1, 0, 15, // LOAD $1 #15
        1, 0, 1, 2, // ADD $0 $1 $2
    ];
    test_vm.program = test_bytes;
    let _ = test_vm.run();
    assert_eq!(test_vm.registers[2], 25);
}

#[test]
fn test_opcode_sub() {
    let mut test_vm = VM::new();
    let test_bytes = vec![
        0, 0, 0, 15, // LOAD $0 #15
        0, 1, 0, 10, // LOAD $1 #10
        2, 0, 1, 2, // SUB $0 $1 $2
    ];
    test_vm.program = test_bytes;
    let _ = test_vm.run_once();
    let _ = test_vm.run_once();
    let _ = test_vm.run_once();
    assert_eq!(test_vm.registers[2], 5);
}

#[test]
fn test_opcode_mul() {
    let mut test_vm = VM::new();
    let test_bytes = vec![
        0, 0, 0, 10, // LOAD $0 #10
        0, 1, 0, 15, // LOAD $1 #15
        3, 0, 1, 2, // MUL $0 $1 $2
    ];
    test_vm.program = test_bytes;
    let _ = test_vm.run_once();
    let _ = test_vm.run_once();
    let _ = test_vm.run_once();
    assert_eq!(test_vm.registers[2], 150);
}

#[test]
fn test_opcode_div() {
    let mut test_vm = VM::new();
    let test_bytes = vec![
        0, 0, 0, 20, // LOAD $0 #20
        0, 1, 0, 15, // LOAD $1 #15
        4, 0, 1, 2, // DIV $0 $1 $2
    ];
    test_vm.program = test_bytes;
    let _ = test_vm.run_once();
    let _ = test_vm.run_once();
    let _ = test_vm.run_once();
    assert_eq!(test_vm.registers[2], 1);
    assert_eq!(test_vm.remainder, 5);
}

#[test]
fn test_jmp_opcode() {
    let mut test_vm = VM::new();
    test_vm.registers[0] = 1;
    test_vm.program = vec![5, 0, 0, 0];
    let _ = test_vm.run_once();
    assert_eq!(test_vm.pc, 1);
}

#[test]
fn test_jmpf_opcode() {
    let mut test_vm = VM::new();
    test_vm.registers[0] = 2;
    test_vm.program = vec![6, 0, 0, 0];
    let _ = test_vm.run_once();
    assert_eq!(test_vm.pc, 4);
}

#[test]
fn test_jmpb_opcode() {
    let mut test_vm = VM::new();
    test_vm.program = vec![
        0, 0, 0, 10, // LOAD $0 #10
        0, 1, 0, 15, // LOAD $1 #15
        3, 0, 1, 2, // MUL $0 $1 $2
        0, 3, 0, 18, // LOAD $3 #18
        7, 3, 0, 0, // JMPB $3
    ];
    let _ = test_vm.run_once();
    let _ = test_vm.run_once();
    let _ = test_vm.run_once();
    let _ = test_vm.run_once();
    let _ = test_vm.run_once();
    assert_eq!(test_vm.pc, 0);
}

#[test]
fn test_eq_opcode() {
    let mut test_vm = VM::new();
    test_vm.registers[0] = 10;
    test_vm.registers[1] = 10;
    test_vm.program = vec![
        8, 0, 1, 0, // EQ $0 $1
        8, 0, 1, 0, // EQ $0 $1
    ];
    let _ = test_vm.run_once();
    assert!(test_vm.equal_flag);

    test_vm.registers[1] = 20;
    let _ = test_vm.run_once();
    assert!(!test_vm.equal_flag);
}

#[test]
fn test_jeq_opcode() {
    let mut test_vm = VM::new();
    test_vm.registers[0] = 2;
    test_vm.equal_flag = true;
    test_vm.program = vec![9, 0, 0, 0];
    let _ = test_vm.run_once();
    assert_eq!(test_vm.pc, 2);
}

#[test]
fn test_jneq_opcode() {
    let mut test_vm = VM::new();
    test_vm.registers[0] = 2;
    test_vm.equal_flag = false;
    test_vm.program = vec![10, 0, 0, 0];
    let _ = test_vm.run_once();
    assert_eq!(test_vm.pc, 2);
}

#[test]
fn test_aloc_opcode() {
    let mut test_vm = VM::default();
    test_vm.registers[0] = 1024;
    test_vm.program = vec![12, 0, 0, 0];
    let _ = test_vm.run_once();
    assert_eq!(test_vm.heap.len(), 1024);
}

#[test]
fn test_inc_opcode() {
    let mut test_vm = VM::default();
    test_vm.registers[0] = 1;
    test_vm.program = vec![13, 0, 0, 0];
    let _ = test_vm.run_once();
    assert_eq!(test_vm.registers[0], 2);
}

#[test]
fn test_dec_opcode() {
    let mut test_vm = VM::default();
    test_vm.registers[0] = 1;
    test_vm.program = vec![14, 0, 0, 0];
    let _ = test_vm.run_once();
    assert_eq!(test_vm.registers[0], 0);
}

#[test]
fn test_unrecognized_opcode_stops_the_vm() {
    let mut test_vm = VM::new();
    test_vm.program = vec![200, 0, 0, 0];
    let r = test_vm.run();
    assert_eq!(r, Err(VMError::UnrecognizedOpcode { code: 200 }));
    assert_eq!(test_vm.pc, 1);
}

#[test]
fn test_truncated_instruction_errors() {
    let mut test_vm = VM::new();
    test_vm.program = vec![0, 0];
    let r = test_vm.run_once();
    assert_eq!(r, Err(VMError::TruncatedInstruction));
}

#[test]
fn test_invalid_register_errors() {
    let mut test_vm = VM::new();
    test_vm.program = vec![0, 99, 0, 5];
    let r = test_vm.run_once();
    assert_eq!(r, Err(VMError::InvalidRegister { reg: 99 }));
}

#[test]
fn test_division_by_zero_errors() {
    let mut test_vm = VM::new();
    test_vm.registers[0] = 20;
    test_vm.registers[1] = 0;
    test_vm.program = vec![4, 0, 1, 2];
    let r = test_vm.run_once();
    assert_eq!(r, Err(VMError::DivisionByZero));
}

#[test]
fn test_arithmetic_overflow_errors() {
    let mut test_vm = VM::new();
    test_vm.registers[0] = i32::MAX;
    test_vm.registers[1] = 1;
    test_vm.program = vec![1, 0, 1, 2];
    let r = test_vm.run_once();
    assert_eq!(r, Err(VMError::ArithmeticOverflow));
}

#[test]
fn test_negative_allocation_errors() {
    let mut test_vm = VM::new();
    test_vm.registers[0] = -1;
    test_vm.program = vec![12, 0, 0, 0];
    let r = test_vm.run_once();
    assert_eq!(r, Err(VMError::HeapOverflow));
}

#[test]
fn test_jmpb_past_start_errors() {
    let mut test_vm = VM::new();
    test_vm.registers[0] = 5;
    test_vm.program = vec![7, 0, 0, 0];
    let r = test_vm.run_once();
    assert_eq!(r, Err(VMError::ProgramCounterOutOfRange));
}

#[test]
fn test_jmp_negative_target_errors() {
    let mut test_vm = VM::new();
    test_vm.registers[0] = -3;
    test_vm.program = vec![5, 0, 0, 0];
    let r = test_vm.run_once();
    assert_eq!(r, Err(VMError::ProgramCounterOutOfRange));
}

#[test]
fn test_jmpb_by_exact_counter_reaches_zero() {
    let mut test_vm = VM::new();
    test_vm.registers[0] = 2;
    test_vm.program = vec![7, 0, 0, 0];
    let r = test_vm.run_once();
    assert_eq!(r, Ok(false));
    assert_eq!(test_vm.pc, 0);
}

#[test]
fn test_add_byte_and_add_bytes_extend_the_program() {
    let mut test_vm = VM::new();
    test_vm.add_byte(11);
    test_vm.add_bytes(vec![0, 0, 0]);
    assert_eq!(test_vm.program, vec![11, 0, 0, 0]);
    let _ = test_vm.run();
    assert_eq!(test_vm.pc, 1);
}
