//! What code generation for one module reads and what it builds up.

use vstd::prelude::*;
use vstd::string::StringExecFns;
use crate::compilation::Compilation;
use crate::dependency::DependencyId;
use crate::init_fragment::{InitFragmentLedger, InitFragmentView};
use crate::module_graph::ModuleIdentifier;
use crate::runtime_globals::{RuntimeGlobal, RuntimeGlobals};

verus! {

/// The import statement of one edge, in two parts. Another component
/// generates the text; here it is placed, not read.
#[derive(Clone, Debug, PartialEq, Eq)]
pub struct ImportContent {
    /// Declares the import variable and loads the module into it.
    pub head: String,
    /// Assigns the bindings that are derived from the import variable.
    pub tail: String,
}

pub struct ImportContentView {
    pub head: Seq<char>,
    pub tail: Seq<char>,
}

impl View for ImportContent {
    type V = ImportContentView;

    open spec fn view(&self) -> ImportContentView {
        ImportContentView { head: self.head@, tail: self.tail@ }
    }
}

impl ImportContent {
    pub fn new(head: String, tail: String) -> (content: ImportContent)
        ensures
            content@ == (ImportContentView { head: head@, tail: tail@ }),
    {
        ImportContent { head, tail }
    }
}

/// One use site of an imported binding. Rewriting the site is the work of
/// another component, which is told for each site whether the import it
/// refers to is kept.
#[derive(Clone, Copy, Debug, PartialEq, Eq, Hash, Structural)]
pub struct HarmonyImportSpecifierDependency {
    pub start: u32,
    pub end: u32,
}

impl HarmonyImportSpecifierDependency {
    pub fn new(start: u32, end: u32) -> (site: HarmonyImportSpecifierDependency)
        ensures
            site.start == start,
            site.end == end,
    {
        HarmonyImportSpecifierDependency { start, end }
    }
}

/// The order to rewrite one use site.
#[derive(Clone, Debug, PartialEq, Eq)]
pub struct SpecifierDelegation {
    pub dependency: HarmonyImportSpecifierDependency,
    /// The edge that the site's binding comes in by.
    pub id: DependencyId,
    /// The request of that edge.
    pub request: String,
    /// Whether the edge's import is emitted, so that the site may refer to
    /// the import variable.
    pub used: bool,
}

pub struct SpecifierDelegationView {
    pub dependency: HarmonyImportSpecifierDependency,
    pub id: DependencyId,
    pub request: Seq<char>,
    pub used: bool,
}

impl View for SpecifierDelegation {
    type V = SpecifierDelegationView;

    open spec fn view(&self) -> SpecifierDelegationView {
        SpecifierDelegationView {
            dependency: self.dependency,
            id: self.id,
            request: self.request@,
            used: self.used,
        }
    }
}

/// The rewriting of a module's source, as the orders given so far.
#[derive(Debug)]
pub struct CodeGeneratableSource {
    delegations: Vec<SpecifierDelegation>,
}

impl View for CodeGeneratableSource {
    type V = Seq<SpecifierDelegationView>;

    closed spec fn view(&self) -> Seq<SpecifierDelegationView> {
        self.delegations@.map_values(|delegation: SpecifierDelegation| delegation@)
    }
}

impl CodeGeneratableSource {
    pub fn new() -> (source: CodeGeneratableSource)
        ensures
            source@ == Seq::<SpecifierDelegationView>::empty(),
    {
        CodeGeneratableSource { delegations: Vec::new() }
    }

    /// Orders one more site rewritten.
    pub fn delegate(&mut self, delegation: SpecifierDelegation)
        ensures
            final(self)@ == old(self)@.push(delegation@),
    {
        self.delegations.push(delegation);
    }

    pub fn len(&self) -> (len: usize)
        ensures
            len == self@.len(),
    {
        self.delegations.len()
    }

    /// The `index`-th order given, counting from 0.
    pub fn get(&self, index: usize) -> (delegation: Option<&SpecifierDelegation>)
        ensures
            match delegation {
                Some(delegation) => index < self@.len() && delegation@ == self@[index as int],
                None => index >= self@.len(),
            },
    {
        if index < self.delegations.len() {
            Some(&self.delegations[index])
        } else {
            None
        }
    }
}

/// What code generation builds up for one module, with what it reads. Each
/// module has a context of its own.
#[derive(Debug)]
pub struct CodeGeneratableContext<'a> {
    pub compilation: &'a Compilation,
    /// The module whose code is generated.
    pub module: ModuleIdentifier,
    pub runtime_requirements: RuntimeGlobals,
    pub init_fragments: InitFragmentLedger,
}

impl<'a> CodeGeneratableContext<'a> {
    /// The context of a module for which nothing has been generated yet.
    pub fn new(compilation: &'a Compilation, module: ModuleIdentifier) -> (context:
        CodeGeneratableContext<'a>)
        ensures
            context.compilation == compilation,
            context.module == module,
            context.runtime_requirements@ == Set::<RuntimeGlobal>::empty(),
            context.init_fragments@ == Seq::<InitFragmentView>::empty(),
    {
        CodeGeneratableContext {
            compilation,
            module,
            runtime_requirements: RuntimeGlobals::new(),
            init_fragments: InitFragmentLedger::new(),
        }
    }
}

/// The text that hands an import variable to the runtime's handling of
/// asynchronous dependencies and binds it again once the module it stands for
/// has settled.
pub open spec fn spec_async_dependencies_block(import_var: Seq<char>) -> Seq<char> {
    "var __webpack_async_dependencies__ = __webpack_handle_async_dependencies__(["@ + import_var
        + "]);\n(["@ + import_var
        + "] = __webpack_async_dependencies__.then ? (await __webpack_async_dependencies__)() : __webpack_async_dependencies__);"@
}

pub fn async_dependencies_block(import_var: &str) -> (text: String)
    ensures
        text@ == spec_async_dependencies_block(import_var@),
{
    let mut text = String::new();
    text.append("var __webpack_async_dependencies__ = __webpack_handle_async_dependencies__([");
    text.append(import_var);
    text.append("]);\n([");
    text.append(import_var);
    text.append(
        "] = __webpack_async_dependencies__.then ? (await __webpack_async_dependencies__)() : __webpack_async_dependencies__);",
    );
    text
}

/// The call that copies the exports of an imported module onto the exports
/// object of the module that re-exports them.
pub open spec fn spec_export_star_call(import_var: Seq<char>, exports_argument: Seq<char>) -> Seq<
    char,
> {
    RuntimeGlobal::Require.spec_name() + "."@ + RuntimeGlobal::ExportStar.spec_name() + "("@
        + import_var + ", "@ + exports_argument + ");\n"@
}

pub fn export_star_call(import_var: &str, exports_argument: &str) -> (text: String)
    ensures
        text@ == spec_export_star_call(import_var@, exports_argument@),
{
    let mut text = String::new();
    text.append(RuntimeGlobal::Require.name());
    text.append(".");
    text.append(RuntimeGlobal::ExportStar.name());
    text.append("(");
    text.append(import_var);
    text.append(", ");
    text.append(exports_argument);
    text.append(");\n");
    text
}

} // verus!
