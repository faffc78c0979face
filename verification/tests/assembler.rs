use iridium::assembler::{Assembler, AssemblerError, PIE_HEADER_LENGTH};
use iridium::vm::VM;

#[test]
fn test_write_header_is_always_64_bytes() {
    let assembler = Assembler::new();
    let header = assembler.write_pie_header();
    assert_eq!(header.len(), PIE_HEADER_LENGTH);
    assert_eq!(&header[0..4], &[45, 50, 49, 45]);
    assert!(header[4..].iter().all(|b| *b == 0));
}

#[test]
fn test_assemble_produces_header_then_instructions() {
    let mut assembler = Assembler::new();
    let image = assembler.assemble("LOAD $0 #10\nADD $0 $1 $2\nHLT\n").unwrap();
    assert_eq!(image.len(), 64 + 12);
    assert_eq!(&image[0..4], &[45, 50, 49, 45]);
    assert_eq!(&image[64..68], &[0, 0, 0, 10]);
    assert_eq!(&image[68..72], &[1, 0, 1, 2]);
    assert_eq!(&image[72..76], &[11, 0, 0, 0]);
}

#[test]
fn test_end_to_end_assemble_load_and_run() {
    let mut assembler = Assembler::new();
    let mut vm = VM::new();
    let image = assembler.assemble("LOAD $0 #10\nLOAD $1 #15\nADD $0 $1 $2\nHLT\n").unwrap();
    vm.add_bytes(image);
    let r = vm.run();
    assert!(r.is_ok());
    assert_eq!(vm.registers[2], 25);
    // the counter stands just past the HLT byte at offset 76
    assert_eq!(vm.pc, 77);
}

#[test]
fn test_division_scenario() {
    let mut assembler = Assembler::new();
    let mut vm = VM::new();
    let image = assembler.assemble("LOAD $0 #20\nLOAD $1 #15\nDIV $0 $1 $2\nHLT\n").unwrap();
    vm.add_bytes(image);
    let r = vm.run();
    assert!(r.is_ok());
    assert_eq!(vm.registers[2], 1);
    assert_eq!(vm.remainder, 5);
}

#[test]
fn test_symbol_uniqueness() {
    let mut assembler = Assembler::new();
    let r = assembler.assemble(".code\nfoo: HLT\nfoo: HLT\n");
    assert!(matches!(r, Err(AssemblerError::SymbolAlreadyDeclared)));

    let mut assembler = Assembler::new();
    let r = assembler.assemble(".code\nfoo: HLT\nbar: HLT\n");
    assert!(r.is_ok());
}

#[test]
fn test_asciiz_populates_the_read_only_section() {
    let mut assembler = Assembler::new();
    let image = assembler.assemble(".data\ntest: .asciiz 'Hi'\n").unwrap();
    assert_eq!(image.len(), 64);
    assert_eq!(assembler.ro, vec![0x48, 0x69, 0x00]);
    assert_eq!(assembler.symbols.symbol_value("test"), Some(0));
}

#[test]
fn test_asciiz_offsets_advance_per_constant() {
    let mut assembler = Assembler::new();
    assembler.assemble(".data\none: .asciiz 'Hi'\ntwo: .asciiz 'by'\n").unwrap();
    assert_eq!(assembler.ro, vec![0x48, 0x69, 0x00, 0x62, 0x79, 0x00]);
    assert_eq!(assembler.symbols.symbol_value("one"), Some(0));
    assert_eq!(assembler.symbols.symbol_value("two"), Some(3));
}

#[test]
fn test_labels_outside_sections_are_skipped() {
    let mut assembler = Assembler::new();
    let r = assembler.assemble("foo: HLT\nfoo: HLT\n");
    // no section is active, so no symbols are created and nothing conflicts
    assert!(r.is_ok());
    assert_eq!(assembler.symbols.symbol_value("foo"), None);
}

#[test]
fn test_unparsable_text_is_a_parse_error() {
    let mut assembler = Assembler::new();
    let r = assembler.assemble("$$$");
    assert!(matches!(r, Err(AssemblerError::ParseError { .. })));
}

#[test]
fn test_trailing_garbage_is_a_parse_error() {
    let mut assembler = Assembler::new();
    let r = assembler.assemble("LOAD $0 #10\n###\n");
    assert!(matches!(r, Err(AssemblerError::ParseError { .. })));
}

#[test]
fn test_oversized_instruction_is_a_parse_error() {
    let mut assembler = Assembler::new();
    let r = assembler.assemble("LOAD #1 #2 #3\n");
    assert!(matches!(r, Err(AssemblerError::ParseError { .. })));
}

#[test]
fn test_unknown_directive() {
    let mut assembler = Assembler::new();
    let r = assembler.assemble(".code\n.bogus 'x'\n");
    assert!(matches!(
        r,
        Err(AssemblerError::UnknownDirectiveFound { directive }) if directive == "bogus"
    ));
}

#[test]
fn test_unknown_section() {
    let mut assembler = Assembler::new();
    let r = assembler.assemble(".bogus\nHLT\n");
    assert!(matches!(r, Err(AssemblerError::UnknownSectionFound)));
}

#[test]
fn test_asciiz_without_operand() {
    let mut assembler = Assembler::new();
    let r = assembler.assemble(".data\n.asciiz\n");
    assert!(matches!(r, Err(AssemblerError::DirectiveWithoutOperand)));
}

#[test]
fn test_asciiz_without_string_constant() {
    let mut assembler = Assembler::new();
    let r = assembler.assemble(".data\ntest: .asciiz $1\n");
    assert!(matches!(r, Err(AssemblerError::NoStringConstant)));
}

#[test]
fn test_asciiz_without_label() {
    let mut assembler = Assembler::new();
    let r = assembler.assemble(".data\n.asciiz 'x'\n");
    assert!(matches!(r, Err(AssemblerError::NoLabel)));
}
