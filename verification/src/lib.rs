//! Code generation for one ECMAScript-module import or export-from edge of a
//! bundled module graph: which imported bindings are live, whether the import
//! can be dropped, and which staged initialisation fragments it contributes.
//!
//! - [`symbol`]: the keys under which the usage analysis records live
//!   bindings.
//! - [`module_graph`] and [`compilation`]: the snapshot of the graph and of
//!   the analyses' results that code generation reads.
//! - [`init_fragment`]: fragments, their stages, and the ledger that a module
//!   collects them in and drains by stage.
//! - [`runtime_globals`]: the runtime helpers that generated code may
//!   require.
//! - [`codegen`]: what code generation for one module builds up.
//! - [`harmony_import_dependency`]: the edge, the liveness filter and the
//!   emission itself.
//! - [`laws`]: what holds of every edge and every ledger.
//!
//! Text is compared and stated by its characters: the view of a `String` is
//! its `Seq<char>`, and every type that holds text has a view that holds the
//! views of its parts.

pub mod assoc;
pub mod codegen;
pub mod compilation;
pub mod dependency;
pub mod error;
pub mod harmony_import_dependency;
pub mod init_fragment;
pub mod laws;
pub mod loader_runner;
pub mod module_graph;
pub mod runtime_globals;
pub mod sequences;
pub mod symbol;
pub mod text;

pub use codegen::{
    CodeGeneratableContext, CodeGeneratableSource, HarmonyImportSpecifierDependency, ImportContent,
    SpecifierDelegation,
};
pub use compilation::{Compilation, IdentifierSet};
pub use dependency::{DependencyCategory, DependencyId, DependencyType, ErrorSpan};
pub use error::{InternalError, InvariantViolation};
pub use harmony_import_dependency::{EmissionPath, HarmonyImportDependency, Specifier};
pub use init_fragment::{InitFragment, InitFragmentLedger, InitFragmentStage};
pub use loader_runner::{CompilerContext, LoaderRunnerContext};
pub use module_graph::{ModuleGraph, ModuleGraphModule, ModuleIdentifier, ModuleType};
pub use runtime_globals::{RuntimeGlobal, RuntimeGlobals};
pub use symbol::{IndirectTopLevelSymbol, IndirectType, SymbolRef, SymbolRefSet};
