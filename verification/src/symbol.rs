//! References to exported bindings, the keys under which the usage analysis
//! records what is live.

use vstd::prelude::*;
use crate::module_graph::ModuleIdentifier;

verus! {

/// How a binding reaches the module that names it.
#[derive(Clone, Debug, PartialEq, Eq, Hash)]
pub enum IndirectType {
    /// `import local from "m"`
    ImportDefault(String),
    /// `import { imported as local } from "m"`; without `imported`, the
    /// binding is imported under its local name.
    Import(String, Option<String>),
    /// `export { imported as local } from "m"`
    ReExport(String, Option<String>),
}

pub enum IndirectTypeView {
    ImportDefault(Seq<char>),
    Import(Seq<char>, Option<Seq<char>>),
    ReExport(Seq<char>, Option<Seq<char>>),
}

/// The characters of an optional name.
pub open spec fn name_view(name: Option<String>) -> Option<Seq<char>> {
    match name {
        Some(text) => Some(text@),
        None => None,
    }
}

impl View for IndirectType {
    type V = IndirectTypeView;

    open spec fn view(&self) -> IndirectTypeView {
        match *self {
            IndirectType::ImportDefault(local) => IndirectTypeView::ImportDefault(local@),
            IndirectType::Import(local, imported) => IndirectTypeView::Import(
                local@,
                name_view(imported),
            ),
            IndirectType::ReExport(local, imported) => IndirectTypeView::ReExport(
                local@,
                name_view(imported),
            ),
        }
    }
}

/// Whether two optional names hold the same characters.
pub fn same_name(a: &Option<String>, b: &Option<String>) -> (same: bool)
    ensures
        same == (name_view(*a) == name_view(*b)),
{
    match (a, b) {
        (Some(x), Some(y)) => *x == *y,
        (None, None) => true,
        _ => false,
    }
}

impl IndirectType {
    /// Structural equality.
    pub fn same_as(&self, other: &IndirectType) -> (same: bool)
        ensures
            same == (self@ == other@),
    {
        match (self, other) {
            (IndirectType::ImportDefault(a), IndirectType::ImportDefault(b)) => *a == *b,
            (IndirectType::Import(a, x), IndirectType::Import(b, y)) => *a == *b && same_name(
                x,
                y,
            ),
            (IndirectType::ReExport(a, x), IndirectType::ReExport(b, y)) => *a == *b && same_name(
                x,
                y,
            ),
            _ => false,
        }
    }
}

/// A binding of module `src` as module `importer` names it.
#[derive(Clone, Debug, PartialEq, Eq, Hash)]
pub struct IndirectTopLevelSymbol {
    pub src: ModuleIdentifier,
    pub ty: IndirectType,
    pub importer: ModuleIdentifier,
}

pub struct IndirectTopLevelSymbolView {
    pub src: ModuleIdentifier,
    pub ty: IndirectTypeView,
    pub importer: ModuleIdentifier,
}

impl View for IndirectTopLevelSymbol {
    type V = IndirectTopLevelSymbolView;

    open spec fn view(&self) -> IndirectTopLevelSymbolView {
        IndirectTopLevelSymbolView { src: self.src, ty: self.ty@, importer: self.importer }
    }
}

impl IndirectTopLevelSymbol {
    pub fn new(src: ModuleIdentifier, ty: IndirectType, importer: ModuleIdentifier) -> (symbol:
        IndirectTopLevelSymbol)
        ensures
            symbol@ == (IndirectTopLevelSymbolView { src, ty: ty@, importer }),
    {
        IndirectTopLevelSymbol { src, ty, importer }
    }

    /// Structural equality.
    pub fn same_as(&self, other: &IndirectTopLevelSymbol) -> (same: bool)
        ensures
            same == (self@ == other@),
    {
        self.src == other.src && self.importer == other.importer && self.ty.same_as(&other.ty)
    }
}

/// One exported binding, as the usage analysis keys it.
#[derive(Clone, Debug, PartialEq, Eq, Hash)]
pub enum SymbolRef {
    Indirect(IndirectTopLevelSymbol),
}

pub enum SymbolRefView {
    Indirect(IndirectTopLevelSymbolView),
}

impl View for SymbolRef {
    type V = SymbolRefView;

    open spec fn view(&self) -> SymbolRefView {
        match *self {
            SymbolRef::Indirect(symbol) => SymbolRefView::Indirect(symbol@),
        }
    }
}

impl SymbolRefView {
    /// The key of `import local from "src"` in module `importer`.
    pub open spec fn import_default(
        src: ModuleIdentifier,
        local: Seq<char>,
        importer: ModuleIdentifier,
    ) -> SymbolRefView {
        SymbolRefView::Indirect(
            IndirectTopLevelSymbolView { src, ty: IndirectTypeView::ImportDefault(local), importer },
        )
    }

    /// The key of `import { imported as local } from "src"` in module
    /// `importer`.
    pub open spec fn import(
        src: ModuleIdentifier,
        local: Seq<char>,
        imported: Option<Seq<char>>,
        importer: ModuleIdentifier,
    ) -> SymbolRefView {
        SymbolRefView::Indirect(
            IndirectTopLevelSymbolView {
                src,
                ty: IndirectTypeView::Import(local, imported),
                importer,
            },
        )
    }

    /// The key of `export { imported as local } from ".."` in module
    /// `exporter`: a re-export is recorded against the module that makes it.
    pub open spec fn re_export(
        exporter: ModuleIdentifier,
        local: Seq<char>,
        imported: Option<Seq<char>>,
    ) -> SymbolRefView {
        SymbolRefView::Indirect(
            IndirectTopLevelSymbolView {
                src: exporter,
                ty: IndirectTypeView::ReExport(local, imported),
                importer: exporter,
            },
        )
    }
}

impl SymbolRef {
    /// Structural equality: two references are the same if all their parts
    /// are.
    pub fn same_as(&self, other: &SymbolRef) -> (same: bool)
        ensures
            same == (self@ == other@),
    {
        match (self, other) {
            (SymbolRef::Indirect(a), SymbolRef::Indirect(b)) => a.same_as(b),
        }
    }

    /// The key of `import local from "src"` in module `importer`.
    pub fn import_default(src: ModuleIdentifier, local: String, importer: ModuleIdentifier) -> (key:
        SymbolRef)
        ensures
            key@ == SymbolRefView::import_default(src, local@, importer),
    {
        SymbolRef::Indirect(
            IndirectTopLevelSymbol { src, ty: IndirectType::ImportDefault(local), importer },
        )
    }

    /// The key of `import { imported as local } from "src"` in module
    /// `importer`.
    pub fn import(
        src: ModuleIdentifier,
        local: String,
        imported: Option<String>,
        importer: ModuleIdentifier,
    ) -> (key: SymbolRef)
        ensures
            key@ == SymbolRefView::import(src, local@, name_view(imported), importer),
    {
        SymbolRef::Indirect(
            IndirectTopLevelSymbol { src, ty: IndirectType::Import(local, imported), importer },
        )
    }

    /// The key of `export { imported as local } from ".."` in module
    /// `exporter`.
    pub fn re_export(exporter: ModuleIdentifier, local: String, imported: Option<String>) -> (key:
        SymbolRef)
        ensures
            key@ == SymbolRefView::re_export(exporter, local@, name_view(imported)),
    {
        SymbolRef::Indirect(
            IndirectTopLevelSymbol {
                src: exporter,
                ty: IndirectType::ReExport(local, imported),
                importer: exporter,
            },
        )
    }
}

/// A set of binding references, such as the bindings found live.
#[derive(Debug)]
pub struct SymbolRefSet {
    symbols: Vec<SymbolRef>,
}

impl View for SymbolRefSet {
    type V = Set<SymbolRefView>;

    closed spec fn view(&self) -> Set<SymbolRefView> {
        Set::new(|key: SymbolRefView| exists|i: int| 0 <= i < self.symbols.len() && #[trigger] self.symbols[i]@ == key)
    }
}

impl SymbolRefSet {
    pub fn new() -> (set: SymbolRefSet)
        ensures
            set@ == Set::<SymbolRefView>::empty(),
    {
        SymbolRefSet { symbols: Vec::new() }
    }

    pub fn insert(&mut self, symbol: SymbolRef)
        ensures
            final(self)@ == old(self)@.insert(symbol@),
    {
        self.symbols.push(symbol);
        proof {
            let before = old(self).symbols@;
            let after = self.symbols@;
            assert forall|key: SymbolRefView| self@.contains(key) <==> old(self)@.insert(
                symbol@,
            ).contains(key) by {
                if old(self)@.contains(key) {
                    let i = choose|i: int| 0 <= i < before.len() && #[trigger] before[i]@ == key;
                    assert(after[i]@ == key);
                }
                if key == symbol@ {
                    assert(after[before.len() as int]@ == key);
                }
            }
        }
    }

    pub fn contains(&self, symbol: &SymbolRef) -> (found: bool)
        ensures
            found == self@.contains(symbol@),
    {
        let mut i: usize = 0;
        while i < self.symbols.len()
            invariant
                i <= self.symbols.len(),
                forall|j: int| 0 <= j < i ==> self.symbols[j]@ != symbol@,
            decreases self.symbols.len() - i,
        {
            if self.symbols[i].same_as(symbol) {
                return true;
            }
            i = i + 1;
        }
        false
    }
}

} // verus!
