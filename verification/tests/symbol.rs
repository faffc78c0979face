use iridium::assembler::symbol::{Symbol, SymbolTable, SymbolType};

#[test]
fn test_symbol_table() {
    let mut sym = SymbolTable::new();
    let new_symbol = Symbol::new("test".to_string(), SymbolType::Label, 12);
    sym.add_symbol(new_symbol);
    assert_eq!(sym.symbols.len(), 1);
    let v = sym.symbol_value("test");
    assert_eq!(true, v.is_some());
    let v = v.unwrap();
    assert_eq!(v, 12);
    let v = sym.symbol_value("does_not_exist");
    assert_eq!(v.is_some(), false);
}

#[test]
fn test_set_symbol_offset() {
    let mut sym = SymbolTable::new();
    sym.add_symbol(Symbol::new("a".to_string(), SymbolType::Label, 0));
    sym.add_symbol(Symbol::new("b".to_string(), SymbolType::Label, 0));
    sym.set_symbol_offset("b", 7);
    assert_eq!(sym.symbol_value("a"), Some(0));
    assert_eq!(sym.symbol_value("b"), Some(7));
    sym.set_symbol_offset("missing", 9);
    assert_eq!(sym.symbol_value("missing"), None);
}

#[test]
fn test_has_symbol_compares_whole_symbols() {
    let mut sym = SymbolTable::new();
    sym.add_symbol(Symbol::new("a".to_string(), SymbolType::Label, 0));
    assert!(sym.has_symbol(&Symbol::new("a".to_string(), SymbolType::Label, 0)));
    assert!(!sym.has_symbol(&Symbol::new("a".to_string(), SymbolType::Label, 1)));
    assert!(!sym.has_symbol(&Symbol::new("b".to_string(), SymbolType::Label, 0)));
}
