//! What a loader is told of the compilation that runs it.

use vstd::prelude::*;
use crate::module_graph::ModuleIdentifier;

verus! {

/// The compilation as a loader sees it: the module that is being loaded and
/// the directory that its requests are resolved from.
#[derive(Clone, Debug, PartialEq, Eq)]
pub struct CompilerContext {
    /// The module that is being loaded.
    pub module: ModuleIdentifier,
    /// The directory of that module, if it has one.
    pub module_context: Option<String>,
}

/// The context under the name that the loader runner knows it by.
pub type LoaderRunnerContext = CompilerContext;

} // verus!
