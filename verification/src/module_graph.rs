//! The resolved module graph, as far as code generation for one edge reads it.

use vstd::prelude::*;
use crate::assoc::{lemma_last_entry_wins, lemma_no_entry_no_key, lemma_value_has_entry, pairs_to_map};
use crate::dependency::DependencyId;
use crate::text::str_eq;

verus! {

/// Token of one module of the graph.
#[derive(Clone, Copy, Debug, PartialEq, Eq, Hash, Structural)]
pub struct ModuleIdentifier(pub u64);

/// What kind of source a module was built from.
#[derive(Clone, Copy, Debug, PartialEq, Eq, Hash, Structural)]
pub enum ModuleType {
    Js,
    JsDynamic,
    JsEsm,
    Jsx,
    Ts,
    Tsx,
    Json,
    Css,
    Asset,
    Wasm,
}

impl ModuleType {
    /// Whether the module is JavaScript or compiles to it, so that its exports
    /// are the bindings that the usage analysis tracks.
    pub open spec fn spec_is_js_like(self) -> bool {
        match self {
            ModuleType::Js
            | ModuleType::JsDynamic
            | ModuleType::JsEsm
            | ModuleType::Jsx
            | ModuleType::Ts
            | ModuleType::Tsx => true,
            _ => false,
        }
    }

    #[verifier::when_used_as_spec(spec_is_js_like)]
    pub fn is_js_like(self) -> (b: bool)
        ensures
            b == self.spec_is_js_like(),
    {
        match self {
            ModuleType::Js
            | ModuleType::JsDynamic
            | ModuleType::JsEsm
            | ModuleType::Jsx
            | ModuleType::Ts
            | ModuleType::Tsx => true,
            _ => false,
        }
    }
}

/// The graph's record of one module.
#[derive(Clone, Debug, PartialEq, Eq)]
pub struct ModuleGraphModule {
    pub module_identifier: ModuleIdentifier,
    pub module_type: ModuleType,
    /// Whether the module's initialisation awaits that of other modules.
    pub is_async: bool,
    /// The name under which the module's body sees its exports object.
    pub exports_argument: String,
}

/// A module record with its text as a sequence of characters.
pub struct ModuleGraphModuleView {
    pub module_identifier: ModuleIdentifier,
    pub module_type: ModuleType,
    pub is_async: bool,
    pub exports_argument: Seq<char>,
}

impl View for ModuleGraphModule {
    type V = ModuleGraphModuleView;

    open spec fn view(&self) -> ModuleGraphModuleView {
        ModuleGraphModuleView {
            module_identifier: self.module_identifier,
            module_type: self.module_type,
            is_async: self.is_async,
            exports_argument: self.exports_argument@,
        }
    }
}

impl ModuleGraphModule {
    pub fn new(
        module_identifier: ModuleIdentifier,
        module_type: ModuleType,
        is_async: bool,
        exports_argument: String,
    ) -> (record: ModuleGraphModule)
        ensures
            record@ == (ModuleGraphModuleView {
                module_identifier,
                module_type,
                is_async,
                exports_argument: exports_argument@,
            }),
    {
        ModuleGraphModule { module_identifier, module_type, is_async, exports_argument }
    }

    /// The name under which the module's body sees its exports object.
    pub fn get_exports_argument(&self) -> (name: &str)
        ensures
            name@ == self@.exports_argument,
    {
        self.exports_argument.as_str()
    }
}

/// One edge with the module it resolved to.
#[derive(Debug)]
struct Connection {
    dependency: DependencyId,
    module: ModuleIdentifier,
}

/// The variable that holds a module's import of one request.
#[derive(Debug)]
struct ImportVar {
    module: ModuleIdentifier,
    request: String,
    name: String,
}

/// A snapshot of the module graph. It is filled before code generation and
/// only read during it.
#[derive(Debug)]
pub struct ModuleGraph {
    modules: Vec<ModuleGraphModule>,
    connections: Vec<Connection>,
    import_vars: Vec<ImportVar>,
}

spec fn module_pairs(modules: Seq<ModuleGraphModule>) -> Seq<(ModuleIdentifier, ModuleGraphModuleView)> {
    Seq::new(modules.len(), |i: int| (modules[i].module_identifier, modules[i]@))
}

spec fn connection_pairs(connections: Seq<Connection>) -> Seq<(DependencyId, ModuleIdentifier)> {
    Seq::new(connections.len(), |i: int| (connections[i].dependency, connections[i].module))
}

spec fn import_var_pairs(vars: Seq<ImportVar>) -> Seq<((ModuleIdentifier, Seq<char>), Seq<char>)> {
    Seq::new(vars.len(), |i: int| ((vars[i].module, vars[i].request@), vars[i].name@))
}

impl ModuleGraph {
    /// The record of each module that has one.
    pub closed spec fn records(&self) -> Map<ModuleIdentifier, ModuleGraphModuleView> {
        pairs_to_map(module_pairs(self.modules@))
    }

    /// The module that each resolved edge points to.
    pub closed spec fn targets(&self) -> Map<DependencyId, ModuleIdentifier> {
        pairs_to_map(connection_pairs(self.connections@))
    }

    /// The generated variable name of each import, by importing module and
    /// request.
    pub closed spec fn import_vars(&self) -> Map<(ModuleIdentifier, Seq<char>), Seq<char>> {
        pairs_to_map(import_var_pairs(self.import_vars@))
    }

    /// The record of the module that an edge points to, if the edge is
    /// resolved and its module has a record.
    pub open spec fn target_record(&self, id: DependencyId) -> Option<ModuleGraphModuleView> {
        if self.targets().contains_key(id) {
            self.records().get(self.targets()[id])
        } else {
            None
        }
    }

    /// Every record is filed under its own identifier.
    pub proof fn lemma_record_key(&self, module: ModuleIdentifier)
        requires
            self.records().contains_key(module),
        ensures
            self.records()[module].module_identifier == module,
    {
        lemma_value_has_entry(module_pairs(self.modules@), module);
    }

    pub fn new() -> (graph: ModuleGraph)
        ensures
            graph.records() == Map::<ModuleIdentifier, ModuleGraphModuleView>::empty(),
            graph.targets() == Map::<DependencyId, ModuleIdentifier>::empty(),
            graph.import_vars() == Map::<(ModuleIdentifier, Seq<char>), Seq<char>>::empty(),
    {
        ModuleGraph { modules: Vec::new(), connections: Vec::new(), import_vars: Vec::new() }
    }

    /// Files a module's record, in place of an earlier one for that module.
    pub fn add_module_graph_module(&mut self, record: ModuleGraphModule)
        ensures
            final(self).records() == old(self).records().insert(record.module_identifier, record@),
            final(self).targets() == old(self).targets(),
            final(self).import_vars() == old(self).import_vars(),
    {
        self.modules.push(record);
        proof {
            assert(module_pairs(self.modules@).drop_last() =~= module_pairs(old(self).modules@));
        }
    }

    /// Records the module that an edge resolved to.
    pub fn set_resolved_module(&mut self, dependency: DependencyId, module: ModuleIdentifier)
        ensures
            final(self).targets() == old(self).targets().insert(dependency, module),
            final(self).records() == old(self).records(),
            final(self).import_vars() == old(self).import_vars(),
    {
        self.connections.push(Connection { dependency, module });
        proof {
            assert(connection_pairs(self.connections@).drop_last() =~= connection_pairs(
                old(self).connections@,
            ));
        }
    }

    /// Records the variable name generated for a module's import of a request.
    pub fn set_import_var(&mut self, module: ModuleIdentifier, request: String, name: String)
        ensures
            final(self).import_vars() == old(self).import_vars().insert(
                (module, request@),
                name@,
            ),
            final(self).records() == old(self).records(),
            final(self).targets() == old(self).targets(),
    {
        self.import_vars.push(ImportVar { module, request, name });
        proof {
            assert(import_var_pairs(self.import_vars@).drop_last() =~= import_var_pairs(
                old(self).import_vars@,
            ));
        }
    }

    /// The module that an edge points to.
    pub fn module_identifier_by_dependency_id(&self, id: &DependencyId) -> (found: Option<
        ModuleIdentifier,
    >)
        ensures
            found == self.targets().get(*id),
    {
        let ghost pairs = connection_pairs(self.connections@);
        let mut i: usize = self.connections.len();
        while i > 0
            invariant
                i <= self.connections.len(),
                pairs == connection_pairs(self.connections@),
                forall|j: int| i <= j < pairs.len() ==> pairs[j].0 != *id,
            decreases i,
        {
            i = i - 1;
            if self.connections[i].dependency == *id {
                proof {
                    lemma_last_entry_wins(pairs, i as int, *id);
                }
                return Some(self.connections[i].module);
            }
        }
        proof {
            lemma_no_entry_no_key(pairs, *id);
        }
        None
    }

    /// The record of a module.
    pub fn module_graph_module_by_identifier(&self, module: &ModuleIdentifier) -> (found: Option<
        &ModuleGraphModule,
    >)
        ensures
            match found {
                Some(record) => self.records().get(*module) == Some(record@),
                None => self.records().get(*module).is_none(),
            },
    {
        let ghost pairs = module_pairs(self.modules@);
        let mut i: usize = self.modules.len();
        while i > 0
            invariant
                i <= self.modules.len(),
                pairs == module_pairs(self.modules@),
                forall|j: int| i <= j < pairs.len() ==> pairs[j].0 != *module,
            decreases i,
        {
            i = i - 1;
            if self.modules[i].module_identifier == *module {
                proof {
                    lemma_last_entry_wins(pairs, i as int, *module);
                }
                return Some(&self.modules[i]);
            }
        }
        proof {
            lemma_no_entry_no_key(pairs, *module);
        }
        None
    }

    /// The record of the module that an edge points to.
    pub fn module_graph_module_by_dependency_id(&self, id: &DependencyId) -> (found: Option<
        &ModuleGraphModule,
    >)
        ensures
            match found {
                Some(record) => self.target_record(*id) == Some(record@),
                None => self.target_record(*id).is_none(),
            },
    {
        match self.module_identifier_by_dependency_id(id) {
            Some(module) => self.module_graph_module_by_identifier(&module),
            None => None,
        }
    }

    /// Whether a module is flagged asynchronous. A module without a record is
    /// not.
    pub fn is_async(&self, module: &ModuleIdentifier) -> (flagged: bool)
        ensures
            flagged == self.spec_is_async(*module),
    {
        match self.module_graph_module_by_identifier(module) {
            Some(record) => record.is_async,
            None => false,
        }
    }

    pub open spec fn spec_is_async(&self, module: ModuleIdentifier) -> bool {
        self.records().contains_key(module) && self.records()[module].is_async
    }

    /// The variable name generated for a module's import of a request.
    pub fn get_import_var(&self, module: &ModuleIdentifier, request: &str) -> (found: Option<&str>)
        ensures
            match found {
                Some(name) => self.import_vars().get((*module, request@)) == Some(name@),
                None => self.import_vars().get((*module, request@)).is_none(),
            },
    {
        let ghost pairs = import_var_pairs(self.import_vars@);
        let ghost key = (*module, request@);
        let mut i: usize = self.import_vars.len();
        while i > 0
            invariant
                i <= self.import_vars.len(),
                pairs == import_var_pairs(self.import_vars@),
                key == (*module, request@),
                forall|j: int| i <= j < pairs.len() ==> pairs[j].0 != key,
            decreases i,
        {
            i = i - 1;
            if self.import_vars[i].module == *module && str_eq(
                self.import_vars[i].request.as_str(),
                request,
            ) {
                proof {
                    lemma_last_entry_wins(pairs, i as int, key);
                }
                return Some(self.import_vars[i].name.as_str());
            }
        }
        proof {
            lemma_no_entry_no_key(pairs, key);
        }
        None
    }
}

} // verus!
