//! The symbol table: the mapping from label name to resolved byte offset,
//! built during the assembler's first pass and patched in place during the
//! second. Lookup and patching both act on the first symbol carrying a name.

use vstd::prelude::*;
use vstd::pervasive::VecAdditionalExecFns;

use crate::assembler::text::str_eq;

verus! {

/// The kind of a symbol; labels are the only kind this assembler creates.
#[derive(Debug, PartialEq, Eq, Structural, Hash, Clone, Copy)]
pub enum SymbolType {
    Label,
}

/// Mathematical content of one symbol.
pub ghost struct SymbolModel {
    pub name: Seq<char>,
    pub offset: u32,
    pub symbol_type: SymbolType,
}

/// A named byte offset produced by a label declaration.
#[derive(Debug, PartialEq, Eq, Hash)]
pub struct Symbol {
    name: String,
    offset: u32,
    symbol_type: SymbolType,
}

impl View for Symbol {
    type V = SymbolModel;

    closed spec fn view(&self) -> SymbolModel {
        SymbolModel { name: self.name@, offset: self.offset, symbol_type: self.symbol_type }
    }
}

impl Symbol {
    pub fn new(name: String, symbol_type: SymbolType, offset: u32) -> (r: Symbol)
        ensures
            r@ == (SymbolModel { name: name@, offset, symbol_type }),
    {
        Symbol { name, symbol_type, offset }
    }
}

/// Index of the first symbol carrying `name`, or `-1` when there is none.
pub open spec fn spec_first_match(syms: Seq<SymbolModel>, name: Seq<char>) -> int
    decreases syms.len(),
{
    if syms.len() == 0 {
        -1
    } else if syms[0].name == name {
        0
    } else {
        let r = spec_first_match(syms.drop_first(), name);
        if r == -1 {
            -1
        } else {
            r + 1
        }
    }
}

/// What `spec_first_match` finds: a position in range holding the name, with
/// no earlier position holding it; or `-1` when no position holds it.
pub proof fn lemma_first_match(syms: Seq<SymbolModel>, name: Seq<char>)
    ensures
        -1 <= spec_first_match(syms, name) < syms.len(),
        spec_first_match(syms, name) >= 0 ==> syms[spec_first_match(syms, name)].name == name,
        forall|j: int|
            0 <= j < syms.len() && (j < spec_first_match(syms, name) || spec_first_match(syms, name)
                == -1) ==> #[trigger] syms[j].name != name,
    decreases syms.len(),
{
    if syms.len() > 0 && syms[0].name != name {
        lemma_first_match(syms.drop_first(), name);
        assert forall|j: int|
            0 <= j < syms.len() && (j < spec_first_match(syms, name) || spec_first_match(syms, name)
                == -1) implies #[trigger] syms[j].name != name by {
            if j > 0 {
                assert(syms.drop_first()[j - 1] == syms[j]);
            }
        }
    }
}

/// Offset of the first symbol carrying `name`, when one exists.
pub open spec fn spec_symbol_lookup(syms: Seq<SymbolModel>, name: Seq<char>) -> Option<u32> {
    let i = spec_first_match(syms, name);
    if i == -1 {
        None
    } else {
        Some(syms[i].offset)
    }
}

/// Whether the table holds a symbol equal to `s` in name, offset and kind.
pub open spec fn spec_symbol_contains(syms: Seq<SymbolModel>, s: SymbolModel) -> bool {
    exists|i: int| 0 <= i < syms.len() && #[trigger] syms[i] == s
}

/// The ordered collection of symbols of one assembly run.
#[derive(Debug)]
pub struct SymbolTable {
    pub symbols: Vec<Symbol>,
}

impl View for SymbolTable {
    type V = Seq<SymbolModel>;

    open spec fn view(&self) -> Seq<SymbolModel> {
        Seq::new(self.symbols@.len(), |i: int| self.symbols@[i]@)
    }
}

impl SymbolTable {
    /// An empty table.
    pub fn new() -> (r: SymbolTable)
        ensures
            r@ == Seq::<SymbolModel>::empty(),
    {
        let t = SymbolTable { symbols: Vec::new() };
        proof {
            assert(t@ =~= Seq::<SymbolModel>::empty());
        }
        t
    }

    /// Appends a symbol. Uniqueness of names is the caller's rule to keep:
    /// the assembler checks with [`SymbolTable::has_symbol`] before adding.
    pub fn add_symbol(&mut self, symbol: Symbol)
        ensures
            final(self)@ == old(self)@.push(symbol@),
    {
        self.symbols.push(symbol);
        proof {
            assert(self@ =~= old(self)@.push(symbol@));
        }
    }

    /// Offset of the first symbol named `s`, when the table has one.
    pub fn symbol_value(&self, s: &str) -> (r: Option<u32>)
        ensures
            r == spec_symbol_lookup(self@, s@),
    {
        proof {
            lemma_first_match(self@, s@);
        }
        let n = self.symbols.len();
        for i in 0..n
            invariant
                n == self.symbols@.len(),
                forall|j: int| 0 <= j < i ==> #[trigger] self@[j].name != s@,
        {
            if str_eq(self.symbols[i].name.as_str(), s) {
                proof {
                    lemma_first_match(self@, s@);
                    assert(self@[i as int].name == s@);
                }
                return Some(self.symbols[i].offset);
            }
        }
        None
    }

    /// Whether the table holds a symbol equal to `s` in name, offset and
    /// kind.
    pub fn has_symbol(&self, s: &Symbol) -> (r: bool)
        ensures
            r == spec_symbol_contains(self@, s@),
    {
        let n = self.symbols.len();
        for i in 0..n
            invariant
                n == self.symbols@.len(),
                forall|j: int| 0 <= j < i ==> #[trigger] self@[j] != s@,
        {
            let candidate = &self.symbols[i];
            if str_eq(candidate.name.as_str(), s.name.as_str()) && candidate.offset == s.offset
                && candidate.symbol_type == s.symbol_type {
                proof {
                    assert(self@[i as int] == s@);
                }
                return true;
            }
        }
        false
    }

    /// Writes `offset` into the first symbol named `name`; a name the table
    /// does not hold leaves it unchanged.
    pub fn set_symbol_offset(&mut self, name: &str, offset: u32)
        ensures
            ({
                let i = spec_first_match(old(self)@, name@);
                if i >= 0 {
                    final(self)@ == old(self)@.update(
                        i,
                        SymbolModel { offset, ..old(self)@[i] },
                    )
                } else {
                    final(self)@ == old(self)@
                }
            }),
    {
        proof {
            lemma_first_match(self@, name@);
        }
        let n = self.symbols.len();
        for i in 0..n
            invariant
                n == self.symbols@.len(),
                self@ == old(self)@,
                forall|j: int| 0 <= j < i ==> #[trigger] self@[j].name != name@,
        {
            if str_eq(self.symbols[i].name.as_str(), name) {
                let nm = self.symbols[i].name.clone();
                let st = self.symbols[i].symbol_type;
                self.symbols.set(i, Symbol { name: nm, offset, symbol_type: st });
                proof {
                    lemma_first_match(old(self)@, name@);
                    assert(old(self)@[i as int].name == name@);
                    assert(spec_first_match(old(self)@, name@) == i as int);
                    assert(self@ =~= old(self)@.update(
                        i as int,
                        SymbolModel { offset, ..old(self)@[i as int] },
                    ));
                }
                return;
            }
        }
    }
}

} // verus!
