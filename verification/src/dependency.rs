//! Tags and tokens that every dependency edge carries.

use vstd::prelude::*;

verus! {

/// Token of one dependency edge: one import or export-from site of a module.
#[derive(Clone, Copy, Debug, PartialEq, Eq, Hash, Structural)]
pub struct DependencyId(pub u64);

/// Byte range of a site in its source file, kept for diagnostics.
#[derive(Clone, Copy, Debug, PartialEq, Eq, Hash, Structural)]
pub struct ErrorSpan {
    pub start: u32,
    pub end: u32,
}

impl ErrorSpan {
    pub fn new(start: u32, end: u32) -> (span: ErrorSpan)
        ensures
            span.start == start,
            span.end == end,
    {
        ErrorSpan { start, end }
    }
}

/// The module system an edge belongs to.
#[derive(Clone, Copy, Debug, PartialEq, Eq, Hash, Structural)]
pub enum DependencyCategory {
    Esm,
    CommonJs,
    Unknown,
}

/// What kind of site an ECMAScript-module edge is.
#[derive(Clone, Copy, Debug, PartialEq, Eq, Hash, Structural)]
pub enum DependencyType {
    /// `import ... from "m"`
    EsmImport,
    /// `export ... from "m"`
    EsmExport,
    /// `export * from "m"`
    EsmExportAll,
}

impl DependencyType {
    /// Whether the edge imports, as opposed to re-exporting.
    pub open spec fn spec_is_import(self) -> bool {
        self == DependencyType::EsmImport
    }

    #[verifier::when_used_as_spec(spec_is_import)]
    pub fn is_import(self) -> (b: bool)
        ensures
            b == self.spec_is_import(),
    {
        match self {
            DependencyType::EsmImport => true,
            _ => false,
        }
    }
}

} // verus!
