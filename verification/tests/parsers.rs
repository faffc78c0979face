use iridium::assembler::directive_parsers::{directive_declaration_parser, directive_parser};
use iridium::assembler::instruction_parsers::{instruction_combined, AssemblerInstruction};
use iridium::assembler::label_parsers::{label_declaration_parser, label_usage_parser};
use iridium::assembler::opcode_parsers::opcode_parser;
use iridium::assembler::operand_parsers::{string_parser, value_parser};
use iridium::assembler::program_parsers::program_parser;
use iridium::assembler::register_parsers::register_parser;
use iridium::assembler::Token;
use iridium::instruction::Opcode;

#[test]
fn test_opcode_parse() {
    let result = opcode_parser("load", 0);
    assert!(result.is_some());
    let (token, rest) = result.unwrap();
    assert_eq!(token, Token::Op { code: Opcode::LOAD });
    assert_eq!(rest, "load".len());

    let result = opcode_parser("LOAD", 0);
    assert!(result.is_some());
    let (token, rest) = result.unwrap();
    assert_eq!(token, Token::Op { code: Opcode::LOAD });
    assert_eq!(rest, "LOAD".len());

    let result = opcode_parser("aold", 0);
    assert!(result.is_some());
    let (token, rest) = result.unwrap();
    assert_eq!(token, Token::Op { code: Opcode::IGL });
    assert_eq!(rest, "aold".len());
}

#[test]
fn test_parse_register() {
    let result = register_parser("$0", 0);
    assert!(result.is_some());
    let (register, rest) = result.unwrap();
    assert_eq!(register, Token::Register { reg_num: 0 });
    assert_eq!(rest, "$0".len());

    let result = register_parser("$10", 0);
    assert!(result.is_some());
    let (register, rest) = result.unwrap();
    assert_eq!(register, Token::Register { reg_num: 10 });
    assert_eq!(rest, "$10".len());

    let result = register_parser("0", 0);
    assert!(!result.is_some());

    let result = register_parser("0", 0);
    assert!(!result.is_some());
}

#[test]
fn test_parse_operand() {
    let result = value_parser("#10", 0);
    assert!(result.is_some());
    let (value, rest) = result.unwrap();
    assert_eq!(value, Token::IntegerOperand { value: 10 });
    assert_eq!(rest, "#10".len());

    let result = value_parser("10", 0);
    assert!(!result.is_some());

    let result = value_parser("#", 0);
    assert!(!result.is_some());
}

#[test]
fn test_parse_string() {
    let result = string_parser("'hello'", 0);
    assert!(result.is_some());
    let (value, rest) = result.unwrap();
    assert_eq!(
        value,
        Token::Str {
            value: "hello".to_string()
        }
    );
    assert_eq!(rest, "'hello'".len());
}

#[test]
fn test_label_declaration_parser() {
    let result = label_declaration_parser("test: ", 0);
    assert!(result.is_some());
    let (label, rest) = result.unwrap();
    assert_eq!(
        label,
        Token::LabelDeclaration {
            name: "test".to_string()
        }
    );
    assert_eq!(rest, "test: ".len());
}

#[test]
fn test_label_usage_parser() {
    let result = label_usage_parser("@test ", 0);
    assert!(result.is_some());
    let (label, rest) = result.unwrap();
    assert_eq!(
        label,
        Token::LabelUsage {
            name: "test".to_string()
        }
    );
    assert_eq!(rest, "@test ".len());
}

#[test]
fn test_directive_declaration_parser() {
    let result = directive_declaration_parser(".test ", 0);
    assert!(result.is_some());
    let (directive, rest) = result.unwrap();
    assert_eq!(
        directive,
        Token::Directive {
            name: "test".to_string()
        }
    );
    assert_eq!(rest, ".test ".len());
}

#[test]
fn test_directive_parser() {
    let result = directive_parser("test: .asciiz 'Hello'", 0);
    assert!(result.is_some());
    let (directive, _rest) = result.unwrap();
    assert_eq!(
        directive,
        AssemblerInstruction {
            label: Some(Token::LabelDeclaration {
                name: "test".to_string()
            }),
            directive: Some(Token::Directive {
                name: "asciiz".to_string()
            }),
            opcode: None,
            operand1: Some(Token::Str {
                value: "Hello".to_string()
            }),
            operand2: None,
            operand3: None,
        }
    )
}

#[test]
fn test_parse_instruction_combined() {
    let result = instruction_combined("LOAD $0 #10", 0);
    assert!(result.is_some());

    let (instruction, rest) = result.unwrap();
    assert_eq!(
        instruction,
        AssemblerInstruction {
            directive: None,
            label: None,
            opcode: Some(Token::Op { code: Opcode::LOAD }),
            operand1: Some(Token::Register { reg_num: 0 }),
            operand2: Some(Token::IntegerOperand { value: 10 }),
            operand3: None,
        }
    );
    assert_eq!(rest, "LOAD $0 #10".len());

    let result = instruction_combined("ADD $0 $1 $2", 0);
    assert!(result.is_some());

    let (instruction, rest) = result.unwrap();
    assert_eq!(
        instruction,
        AssemblerInstruction {
            directive: None,
            label: None,
            opcode: Some(Token::Op { code: Opcode::ADD }),
            operand1: Some(Token::Register { reg_num: 0 }),
            operand2: Some(Token::Register { reg_num: 1 }),
            operand3: Some(Token::Register { reg_num: 2 }),
        }
    );
    assert_eq!(rest, "ADD $0 $1 $2".len());

    let result = instruction_combined("test: HLT", 0);
    assert!(result.is_some());

    let (instruction, rest) = result.unwrap();
    assert_eq!(
        instruction,
        AssemblerInstruction {
            directive: None,
            label: Some(Token::LabelDeclaration {
                name: "test".to_string()
            }),
            opcode: Some(Token::Op { code: Opcode::HLT }),
            operand1: None,
            operand2: None,
            operand3: None,
        }
    );
    assert_eq!(rest, "test: HLT".len());

    let result = instruction_combined("test: LOAD $0 #10", 0);
    assert!(result.is_some());

    let (instruction, rest) = result.unwrap();
    assert_eq!(
        instruction,
        AssemblerInstruction {
            directive: None,
            label: Some(Token::LabelDeclaration {
                name: "test".to_string()
            }),
            opcode: Some(Token::Op { code: Opcode::LOAD }),
            operand1: Some(Token::Register { reg_num: 0 }),
            operand2: Some(Token::IntegerOperand { value: 10 }),
            operand3: None,
        }
    );
    assert_eq!(rest, "test: LOAD $0 #10".len());
}

#[test]
fn test_parse_program() {
    let result = program_parser("LOAD $0 #10\nLOAD $1 #15\n");
    assert!(result.is_some());

    let (program, rest) = result.unwrap();
    assert_eq!(rest, "LOAD $0 #10\nLOAD $1 #15\n".len());
    assert_eq!(program.instructions.len(), 2);
}

#[test]
fn test_program_to_bytes() {
    let result = program_parser("load $0 #100\n");
    assert_eq!(result.is_some(), true);
    let (program, _) = result.unwrap();
    let bytecode = program.to_bytes();
    assert_eq!(bytecode.len(), 4);
    println!("{:?}", bytecode);
}

#[test]
fn test_encoding() {
    let (instruction, _) = instruction_combined("LOAD $0 #10", 0).unwrap();
    assert_eq!(instruction.to_bytes(), vec![0, 0, 0, 10]);

    let (instruction, _) = instruction_combined("ADD $0 $1 $2", 0).unwrap();
    assert_eq!(instruction.to_bytes(), vec![1, 0, 1, 2]);

    let (instruction, _) = instruction_combined("HLT", 0).unwrap();
    assert_eq!(instruction.to_bytes(), vec![11, 0, 0, 0]);
}

#[test]
fn test_encoding_truncates_large_immediates() {
    let (instruction, _) = instruction_combined("LOAD $0 #500", 0).unwrap();
    assert_eq!(instruction.to_bytes(), vec![0, 0, 1, 244]);
}

#[test]
fn test_string_operand_is_not_encodable() {
    let (instruction, _) = instruction_combined("LOAD 'oops'", 0).unwrap();
    assert!(!instruction.is_encodable());
    let (instruction, _) = instruction_combined("LOAD $0 #1", 0).unwrap();
    assert!(instruction.is_encodable());
}

#[test]
fn test_register_out_of_byte_range_fails_parse() {
    assert!(register_parser("$256", 0).is_none());
    assert!(register_parser("$255", 0).is_some());
}
