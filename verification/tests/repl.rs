use iridium::repl::REPL;

#[test]
fn test_create_repl() {
    let repl = REPL::new();
    assert_eq!(repl.command_buffer.len(), 0);
    assert_eq!(repl.vm.registers[0], 0);
}

#[test]
fn test_parse_hex_reads_byte_pairs() {
    let mut repl = REPL::new();
    assert_eq!(repl.parse_hex("00 01 ff"), Some(vec![0, 1, 255]));
    assert_eq!(repl.parse_hex("0B"), Some(vec![11]));
}

#[test]
fn test_parse_hex_rejects_bad_tokens() {
    let mut repl = REPL::new();
    assert_eq!(repl.parse_hex(""), None);
    assert_eq!(repl.parse_hex("zz"), None);
    assert_eq!(repl.parse_hex("100"), None);
    assert_eq!(repl.parse_hex("0a  0b"), None);
}

#[test]
fn test_parse_hex_feeds_the_vm() {
    let mut repl = REPL::new();
    let bytes = repl.parse_hex("00 00 00 0a").unwrap();
    repl.vm.add_bytes(bytes);
    let _ = repl.vm.run_once();
    assert_eq!(repl.vm.registers[0], 10);
}
