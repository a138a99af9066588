//! What earlier passes found out about the whole compilation, as code
//! generation reads it.

use vstd::prelude::*;
use crate::module_graph::{ModuleGraph, ModuleIdentifier};
use crate::symbol::SymbolRefSet;

verus! {

/// A set of modules.
#[derive(Debug)]
pub struct IdentifierSet {
    modules: Vec<ModuleIdentifier>,
}

impl View for IdentifierSet {
    type V = Set<ModuleIdentifier>;

    closed spec fn view(&self) -> Set<ModuleIdentifier> {
        self.modules@.to_set()
    }
}

impl IdentifierSet {
    pub fn new() -> (set: IdentifierSet)
        ensures
            set@ == Set::<ModuleIdentifier>::empty(),
    {
        IdentifierSet { modules: Vec::new() }
    }

    pub fn insert(&mut self, module: ModuleIdentifier)
        ensures
            final(self)@ == old(self)@.insert(module),
    {
        self.modules.push(module);
        proof {
            let before = old(self).modules@;
            let after = self.modules@;
            assert forall|m: ModuleIdentifier| after.contains(m) <==> before.to_set().insert(
                module,
            ).contains(m) by {
                if before.contains(m) {
                    let i = choose|i: int| 0 <= i < before.len() && before[i] == m;
                    assert(after[i] == m);
                }
                if m == module {
                    assert(after[before.len() as int] == m);
                }
            }
        }
    }

    pub fn contains(&self, module: &ModuleIdentifier) -> (found: bool)
        ensures
            found == self@.contains(*module),
    {
        let mut i: usize = 0;
        while i < self.modules.len()
            invariant
                i <= self.modules.len(),
                forall|j: int| 0 <= j < i ==> self.modules[j] != *module,
            decreases self.modules.len() - i,
        {
            if self.modules[i] == *module {
                return true;
            }
            i = i + 1;
        }
        false
    }
}

/// The results of the passes that run before code generation. Code
/// generation reads them and changes none.
#[derive(Debug)]
pub struct Compilation {
    pub module_graph: ModuleGraph,
    /// The bindings that the usage analysis found live.
    pub used_symbol_ref: SymbolRefSet,
    /// The modules known to do nothing but produce their exports.
    pub side_effects_free_modules: IdentifierSet,
    /// The modules that are part of the output.
    pub include_module_ids: IdentifierSet,
}

impl Compilation {
    pub fn new(
        module_graph: ModuleGraph,
        used_symbol_ref: SymbolRefSet,
        side_effects_free_modules: IdentifierSet,
        include_module_ids: IdentifierSet,
    ) -> (compilation: Compilation)
        ensures
            compilation.module_graph == module_graph,
            compilation.used_symbol_ref == used_symbol_ref,
            compilation.side_effects_free_modules == side_effects_free_modules,
            compilation.include_module_ids == include_module_ids,
    {
        Compilation { module_graph, used_symbol_ref, side_effects_free_modules, include_module_ids }
    }
}

} // verus!
