//! One import or export-from edge, and the code it contributes to the module
//! that holds it.

use vstd::prelude::*;
use vstd::string::StringExecFns;
use crate::codegen::{
    async_dependencies_block, export_star_call, spec_async_dependencies_block,
    spec_export_star_call, CodeGeneratableContext, CodeGeneratableSource,
    HarmonyImportSpecifierDependency, ImportContent, ImportContentView, SpecifierDelegation,
    SpecifierDelegationView,
};
use crate::compilation::Compilation;
use crate::dependency::{DependencyCategory, DependencyId, DependencyType, ErrorSpan};
use crate::error::{InternalError, InvariantViolation};
use crate::init_fragment::{InitFragment, InitFragmentStage, InitFragmentView};
use crate::module_graph::{ModuleGraphModule, ModuleGraphModuleView, ModuleIdentifier};
use crate::runtime_globals::RuntimeGlobal;
use crate::sequences::lemma_filter_take;
use crate::symbol::{name_view, SymbolRef, SymbolRefSet, SymbolRefView};

verus! {

/// One binding that an edge brings in.
#[derive(Clone, Debug, PartialEq, Eq)]
pub enum Specifier {
    /// `* as name`
    Namespace(String),
    /// The default export under a local name.
    Default(String),
    /// A named export under a local name; the second part is the export's
    /// name where it differs from the local one.
    Named(String, Option<String>),
}

pub enum SpecifierView {
    Namespace(Seq<char>),
    Default(Seq<char>),
    Named(Seq<char>, Option<Seq<char>>),
}

impl View for Specifier {
    type V = SpecifierView;

    open spec fn view(&self) -> SpecifierView {
        match *self {
            Specifier::Namespace(name) => SpecifierView::Namespace(name@),
            Specifier::Default(local) => SpecifierView::Default(local@),
            Specifier::Named(local, imported) => SpecifierView::Named(local@, name_view(imported)),
        }
    }
}

/// The specifiers of a list, each as its view.
pub open spec fn specifier_views(specifiers: Seq<Specifier>) -> Seq<SpecifierView> {
    specifiers.map_values(|specifier: Specifier| specifier@)
}

/// The specifiers that a list of references points to, each as its view.
pub open spec fn specifier_ref_views(specifiers: Seq<&Specifier>) -> Seq<SpecifierView> {
    specifiers.map_values(|specifier: &Specifier| specifier@)
}

/// Whether a specifier of an edge is live.
///
/// An import from a module that is not JavaScript-like keeps all its
/// specifiers: no usage is tracked for the bindings of such a module. A
/// namespace is always live, since its properties may be read by computed
/// names. A default or named import is live if the usage analysis found the
/// binding used that the importing module has from the target. A named
/// re-export is live if it found the re-export used, which it records
/// against the re-exporting module itself. A default specifier on an edge
/// that does not import is never live: the edge is malformed.
pub open spec fn is_live(
    specifier: SpecifierView,
    dependency_type: DependencyType,
    target: ModuleGraphModuleView,
    importer: ModuleIdentifier,
    used: Set<SymbolRefView>,
) -> bool {
    if dependency_type.is_import() && !target.module_type.is_js_like() {
        true
    } else {
        match specifier {
            SpecifierView::Namespace(_) => true,
            SpecifierView::Default(local) => dependency_type.is_import() && used.contains(
                SymbolRefView::import_default(target.module_identifier, local, importer),
            ),
            SpecifierView::Named(local, imported) => if dependency_type.is_import() {
                used.contains(
                    SymbolRefView::import(target.module_identifier, local, imported, importer),
                )
            } else {
                used.contains(SymbolRefView::re_export(importer, local, imported))
            },
        }
    }
}

/// The liveness test of one edge, as a predicate on specifiers.
pub open spec fn liveness(
    dependency_type: DependencyType,
    target: ModuleGraphModuleView,
    importer: ModuleIdentifier,
    used: Set<SymbolRefView>,
) -> spec_fn(SpecifierView) -> bool {
    |specifier: SpecifierView| is_live(specifier, dependency_type, target, importer, used)
}

/// Whether a list of specifiers holds a default specifier although the edge
/// does not import.
pub open spec fn has_stray_default(
    specifiers: Seq<SpecifierView>,
    dependency_type: DependencyType,
) -> bool {
    !dependency_type.is_import() && exists|i: int|
        0 <= i < specifiers.len() && #[trigger] specifiers[i] is Default
}

/// What became of an edge.
#[derive(Clone, Copy, Debug, PartialEq, Eq, Hash, Structural)]
pub enum EmissionPath {
    /// The target module is not part of the output: nothing is emitted.
    ExcludedTarget,
    /// No specifier is live and the target module has no side effects:
    /// nothing is emitted.
    DeadImport,
    /// The import is emitted.
    Emitted,
}

/// The path or the broken promise that a result reports.
pub open spec fn reported(result: Result<EmissionPath, InternalError>) -> Result<
    EmissionPath,
    InvariantViolation,
> {
    match result {
        Ok(path) => Ok(path),
        Err(error) => Err(error.violation),
    }
}

/// The fragments that import a module: one if the module is synchronous,
/// and if it is asynchronous the declaration, the wait for the module to
/// settle, and then the bindings, which run in the later stage.
pub open spec fn import_fragments(
    content: ImportContentView,
    target_async: bool,
    import_var: Seq<char>,
) -> Seq<InitFragmentView> {
    if target_async {
        seq![
            InitFragmentView {
                content: content.head,
                stage: InitFragmentStage::HarmonyImports,
                ordering_hint: None,
            },
            InitFragmentView {
                content: spec_async_dependencies_block(import_var),
                stage: InitFragmentStage::HarmonyImports,
                ordering_hint: None,
            },
            InitFragmentView {
                content: content.tail,
                stage: InitFragmentStage::AsyncHarmonyImports,
                ordering_hint: None,
            },
        ]
    } else {
        seq![
            InitFragmentView {
                content: content.head + content.tail,
                stage: InitFragmentStage::HarmonyImports,
                ordering_hint: None,
            },
        ]
    }
}

/// The stage in which the bindings of an imported module are complete.
pub open spec fn settled_stage(target_async: bool) -> InitFragmentStage {
    if target_async {
        InitFragmentStage::AsyncHarmonyImports
    } else {
        InitFragmentStage::HarmonyImports
    }
}

/// The fragment that re-exports all of an imported module. It runs in the
/// stage in which the module's bindings are complete.
pub open spec fn export_star_fragment(
    target_async: bool,
    import_var: Seq<char>,
    exports_argument: Seq<char>,
) -> InitFragmentView {
    InitFragmentView {
        content: spec_export_star_call(import_var, exports_argument),
        stage: settled_stage(target_async),
        ordering_hint: None,
    }
}

/// One import or export-from site of a module.
#[derive(Clone, Debug, PartialEq, Eq)]
pub struct HarmonyImportDependency {
    /// The module asked for, as written at the site.
    pub request: String,
    /// Assigned once, before code generation.
    pub id: Option<DependencyId>,
    pub span: Option<ErrorSpan>,
    /// The use sites of the bindings that come in by this edge.
    pub refs: Vec<HarmonyImportSpecifierDependency>,
    /// Not read where `export_all` is set.
    pub specifiers: Vec<Specifier>,
    pub dependency_type: DependencyType,
    /// Whether the edge re-exports everything (`export *`).
    pub export_all: bool,
}

/// What an edge's code generation found out before it changes anything.
enum Plan<'a> {
    ExcludedTarget { id: DependencyId },
    DeadImport { id: DependencyId },
    Emit {
        id: DependencyId,
        target_async: bool,
        import_var: &'a str,
        /// Present if and only if the edge re-exports everything.
        exports_argument: Option<&'a str>,
    },
}

impl<'a> Plan<'a> {
    spec fn path(self) -> EmissionPath {
        match self {
            Plan::ExcludedTarget { .. } => EmissionPath::ExcludedTarget,
            Plan::DeadImport { .. } => EmissionPath::DeadImport,
            Plan::Emit { .. } => EmissionPath::Emitted,
        }
    }

    spec fn id(self) -> DependencyId {
        match self {
            Plan::ExcludedTarget { id } => id,
            Plan::DeadImport { id } => id,
            Plan::Emit { id, .. } => id,
        }
    }
}

/// A copy of an optional name.
fn clone_name(name: &Option<String>) -> (copy: Option<String>)
    ensures
        name_view(copy) == name_view(*name),
{
    match name {
        Some(text) => Some(text.clone()),
        None => None,
    }
}

impl HarmonyImportDependency {
    /// An edge that has no id yet.
    pub fn new(
        request: String,
        span: Option<ErrorSpan>,
        refs: Vec<HarmonyImportSpecifierDependency>,
        specifiers: Vec<Specifier>,
        dependency_type: DependencyType,
        export_all: bool,
    ) -> (dependency: HarmonyImportDependency)
        ensures
            dependency.request == request,
            dependency.id.is_none(),
            dependency.span == span,
            dependency.refs == refs,
            dependency.specifiers == specifiers,
            dependency.dependency_type == dependency_type,
            dependency.export_all == export_all,
    {
        HarmonyImportDependency {
            request,
            span,
            id: None,
            refs,
            specifiers,
            dependency_type,
            export_all,
        }
    }

    /// Whether the edge holds a default specifier although it does not
    /// import.
    pub open spec fn spec_has_stray_default(&self) -> bool {
        has_stray_default(specifier_views(self.specifiers@), self.dependency_type)
    }

    /// The live specifiers of the edge, in the order in which the edge lists
    /// them.
    pub open spec fn spec_live_specifiers(
        &self,
        target: ModuleGraphModuleView,
        importer: ModuleIdentifier,
        used: Set<SymbolRefView>,
    ) -> Seq<SpecifierView> {
        specifier_views(self.specifiers@).filter(
            liveness(self.dependency_type, target, importer, used),
        )
    }

    /// The specifiers of the edge that are live, given the module that the
    /// edge resolved to, the module that holds the edge, and the bindings
    /// found used. Fails if and only if the edge does not import and yet
    /// lists a default specifier.
    pub fn live_specifiers(
        &self,
        target: &ModuleGraphModule,
        importer: ModuleIdentifier,
        used_symbol_ref: &SymbolRefSet,
    ) -> (result: Result<Vec<&Specifier>, InvariantViolation>)
        ensures
            match result {
                Ok(live) => !self.spec_has_stray_default() && specifier_ref_views(live@)
                    == self.spec_live_specifiers(target@, importer, used_symbol_ref@),
                Err(violation) => self.spec_has_stray_default() && violation
                    == InvariantViolation::DefaultSpecifierOnReExport,
            },
    {
        let is_import = self.dependency_type.is_import();
        let narrows = !is_import || target.module_type.is_js_like();
        let ghost all = specifier_views(self.specifiers@);
        let ghost pred = liveness(self.dependency_type, target@, importer, used_symbol_ref@);
        let mut live: Vec<&Specifier> = Vec::new();
        let mut i: usize = 0;
        while i < self.specifiers.len()
            invariant
                i <= self.specifiers.len(),
                is_import == self.dependency_type.is_import(),
                narrows == (!is_import || target.module_type.is_js_like()),
                all == specifier_views(self.specifiers@),
                pred == liveness(self.dependency_type, target@, importer, used_symbol_ref@),
                forall|j: int| 0 <= j < i ==> is_import || !(#[trigger] all[j] is Default),
                specifier_ref_views(live@) == all.take(i as int).filter(pred),
            decreases self.specifiers.len() - i,
        {
            let specifier = &self.specifiers[i];
            let keep = if !narrows {
                true
            } else {
                match specifier {
                    Specifier::Namespace(_) => true,
                    Specifier::Default(local) => {
                        if is_import {
                            let symbol = SymbolRef::import_default(
                                target.module_identifier,
                                local.clone(),
                                importer,
                            );
                            used_symbol_ref.contains(&symbol)
                        } else {
                            return Err(InvariantViolation::DefaultSpecifierOnReExport);
                        }
                    },
                    Specifier::Named(local, imported) => {
                        let symbol = if is_import {
                            SymbolRef::import(
                                target.module_identifier,
                                local.clone(),
                                clone_name(imported),
                                importer,
                            )
                        } else {
                            SymbolRef::re_export(importer, local.clone(), clone_name(imported))
                        };
                        used_symbol_ref.contains(&symbol)
                    },
                }
            };
            proof {
                lemma_filter_take(all, pred, i as int);
            }
            if keep {
                live.push(specifier);
            }
            i = i + 1;
        }
        proof {
            assert(all.take(i as int) =~= all);
        }
        Ok(live)
    }

    /// The path that code generation takes for the edge in module `module`,
    /// or the broken promise that ends it.
    ///
    /// In this order: the edge has an id; the graph has the record of the
    /// module it resolved to; if that module is not part of the output,
    /// nothing is emitted. Else, unless the edge re-exports everything, its
    /// specifiers are narrowed to the live ones, which fails on a stray
    /// default specifier; if none is live and the target has no side effects,
    /// nothing is emitted. Else the import is emitted, for which the graph
    /// must hold the import's variable name and, where the edge re-exports
    /// everything, the record of `module`.
    pub open spec fn spec_emission_path(
        &self,
        compilation: &Compilation,
        module: ModuleIdentifier,
    ) -> Result<EmissionPath, InvariantViolation> {
        match self.id {
            None => Err(InvariantViolation::MissingDependencyId),
            Some(id) => match compilation.module_graph.target_record(id) {
                None => Err(InvariantViolation::MissingReferencedModule),
                Some(target) => if !compilation.include_module_ids@.contains(
                    target.module_identifier,
                ) {
                    Ok(EmissionPath::ExcludedTarget)
                } else if !self.export_all && self.spec_has_stray_default() {
                    Err(InvariantViolation::DefaultSpecifierOnReExport)
                } else if !self.export_all && self.spec_live_specifiers(
                    target,
                    module,
                    compilation.used_symbol_ref@,
                ).len() == 0 && compilation.side_effects_free_modules@.contains(
                    target.module_identifier,
                ) {
                    Ok(EmissionPath::DeadImport)
                } else if !compilation.module_graph.import_vars().contains_key(
                    (module, self.request@),
                ) {
                    Err(InvariantViolation::MissingImportVar)
                } else if self.export_all && !compilation.module_graph.records().contains_key(
                    module,
                ) {
                    Err(InvariantViolation::MissingModuleGraphModule)
                } else {
                    Ok(EmissionPath::Emitted)
                },
            },
        }
    }

    /// Whether code generation for the edge emits its import.
    pub open spec fn spec_emits(&self, compilation: &Compilation, module: ModuleIdentifier) -> bool {
        self.spec_emission_path(compilation, module) matches Ok(EmissionPath::Emitted)
    }

    /// The orders to rewrite the edge's use sites: one for each site, in the
    /// order of `refs`, all with the same flag.
    pub open spec fn spec_delegations(&self, id: DependencyId, used: bool) -> Seq<
        SpecifierDelegationView,
    > {
        Seq::new(
            self.refs@.len(),
            |i: int|
                SpecifierDelegationView {
                    dependency: self.refs@[i],
                    id,
                    request: self.request@,
                    used,
                },
        )
    }

    /// The orders that code generation for the edge gives: none if it fails,
    /// and else one for each use site, which says whether the import is
    /// emitted.
    pub open spec fn spec_delegated(
        &self,
        compilation: &Compilation,
        module: ModuleIdentifier,
    ) -> Seq<SpecifierDelegationView> {
        match self.spec_emission_path(compilation, module) {
            Ok(path) => self.spec_delegations(self.id.unwrap(), path == EmissionPath::Emitted),
            Err(_) => Seq::empty(),
        }
    }

    /// The fragments that code generation for the edge appends: none unless
    /// the import is emitted; else those that import the target module,
    /// followed, where the edge re-exports everything, by the one that does
    /// so.
    pub open spec fn spec_emitted(
        &self,
        compilation: &Compilation,
        module: ModuleIdentifier,
        content: ImportContentView,
    ) -> Seq<InitFragmentView> {
        if self.spec_emits(compilation, module) {
            let target = compilation.module_graph.target_record(self.id.unwrap()).unwrap();
            let import_var = compilation.module_graph.import_vars()[(module, self.request@)];
            let import = import_fragments(content, target.is_async, import_var);
            if self.export_all {
                import.push(
                    export_star_fragment(
                        target.is_async,
                        import_var,
                        compilation.module_graph.records()[module].exports_argument,
                    ),
                )
            } else {
                import
            }
        } else {
            Seq::empty()
        }
    }

    /// The runtime helpers that code generation for the edge requires: the
    /// one that re-exports everything, if the import is emitted and the edge
    /// does so; else none.
    pub open spec fn spec_required(
        &self,
        compilation: &Compilation,
        module: ModuleIdentifier,
    ) -> Set<RuntimeGlobal> {
        if self.export_all && self.spec_emits(compilation, module) {
            set![RuntimeGlobal::ExportStar]
        } else {
            Set::empty()
        }
    }

    /// The error that ends code generation for this edge.
    fn fail(&self, violation: InvariantViolation) -> (error: InternalError)
        ensures
            error.violation == violation,
            error.id == self.id,
            error.request@ == self.request@,
    {
        InternalError { violation, id: self.id, request: self.request.clone() }
    }

    /// Decides the edge's path and looks up what emitting needs.
    fn plan<'a>(&self, compilation: &'a Compilation, module: ModuleIdentifier) -> (result: Result<
        Plan<'a>,
        InternalError,
    >)
        ensures
            self.spec_emission_path(compilation, module) == match result {
                Ok(plan) => Ok(plan.path()),
                Err(error) => Err(error.violation),
            },
            match result {
                Ok(plan) => {
                    &&& self.id == Some(plan.id())
                    &&& plan matches Plan::Emit { target_async, import_var, exports_argument, .. }
                        ==> {
                        &&& target_async == compilation.module_graph.target_record(
                            plan.id(),
                        ).unwrap().is_async
                        &&& import_var@ == compilation.module_graph.import_vars()[(
                            module,
                            self.request@,
                        )]
                        &&& match exports_argument {
                            Some(name) => self.export_all && name@
                                == compilation.module_graph.records()[module].exports_argument,
                            None => !self.export_all,
                        }
                    }
                },
                Err(error) => error.id == self.id && error.request@ == self.request@,
            },
    {
        let id = match self.id {
            Some(id) => id,
            None => {
                return Err(self.fail(InvariantViolation::MissingDependencyId));
            },
        };
        let target = match compilation.module_graph.module_graph_module_by_dependency_id(&id) {
            Some(target) => target,
            None => {
                return Err(self.fail(InvariantViolation::MissingReferencedModule));
            },
        };
        if !compilation.include_module_ids.contains(&target.module_identifier) {
            return Ok(Plan::ExcludedTarget { id });
        }
        if !self.export_all {
            match self.live_specifiers(target, module, &compilation.used_symbol_ref) {
                Err(violation) => {
                    return Err(self.fail(violation));
                },
                Ok(live) => {
                    if live.len() == 0 && compilation.side_effects_free_modules.contains(
                        &target.module_identifier,
                    ) {
                        return Ok(Plan::DeadImport { id });
                    }
                },
            }
        }
        let import_var = match compilation.module_graph.get_import_var(&module, self.request.as_str()) {
            Some(import_var) => import_var,
            None => {
                return Err(self.fail(InvariantViolation::MissingImportVar));
            },
        };
        let exports_argument = if self.export_all {
            match compilation.module_graph.module_graph_module_by_identifier(&module) {
                Some(record) => Some(record.get_exports_argument()),
                None => {
                    return Err(self.fail(InvariantViolation::MissingModuleGraphModule));
                },
            }
        } else {
            None
        };
        Ok(Plan::Emit { id, target_async: target.is_async, import_var, exports_argument })
    }

    /// The path that code generation takes for the edge in module `module`,
    /// without generating anything.
    pub fn emission_path(&self, compilation: &Compilation, module: ModuleIdentifier) -> (result:
        Result<EmissionPath, InternalError>)
        ensures
            reported(result) == self.spec_emission_path(compilation, module),
            result matches Err(error) ==> error.id == self.id && error.request@ == self.request@,
    {
        match self.plan(compilation, module) {
            Ok(Plan::ExcludedTarget { .. }) => Ok(EmissionPath::ExcludedTarget),
            Ok(Plan::DeadImport { .. }) => Ok(EmissionPath::DeadImport),
            Ok(Plan::Emit { .. }) => Ok(EmissionPath::Emitted),
            Err(error) => Err(error),
        }
    }

    /// Orders every use site of the edge rewritten.
    fn delegate(&self, source: &mut CodeGeneratableSource, id: DependencyId, used: bool)
        ensures
            final(source)@ == old(source)@ + self.spec_delegations(id, used),
    {
        let ghost all = self.spec_delegations(id, used);
        let mut i: usize = 0;
        while i < self.refs.len()
            invariant
                i <= self.refs.len(),
                all == self.spec_delegations(id, used),
                source@ == old(source)@ + all.take(i as int),
            decreases self.refs.len() - i,
        {
            let delegation = SpecifierDelegation {
                dependency: self.refs[i],
                id,
                request: self.request.clone(),
                used,
            };
            source.delegate(delegation);
            i = i + 1;
        }
    }

    /// Generates the code of the edge into the context of the module that
    /// holds it. `content` is the edge's import statement; it is placed only
    /// where the import is emitted.
    ///
    /// On success every use site of the edge is ordered rewritten, and told
    /// whether the import is emitted. Where it is, its fragments are appended
    /// to the ledger and the helpers it calls are required. On failure
    /// nothing is changed.
    pub fn apply(
        &self,
        source: &mut CodeGeneratableSource,
        code_generatable_context: &mut CodeGeneratableContext,
        content: ImportContent,
    ) -> (result: Result<EmissionPath, InternalError>)
        ensures
            final(code_generatable_context).compilation == old(code_generatable_context).compilation,
            final(code_generatable_context).module == old(code_generatable_context).module,
            reported(result) == self.spec_emission_path(
                old(code_generatable_context).compilation,
                old(code_generatable_context).module,
            ),
            result matches Err(error) ==> error.id == self.id && error.request@ == self.request@,
            final(source)@ == old(source)@ + self.spec_delegated(
                old(code_generatable_context).compilation,
                old(code_generatable_context).module,
            ),
            final(code_generatable_context).init_fragments@ == old(
                code_generatable_context,
            ).init_fragments@ + self.spec_emitted(
                old(code_generatable_context).compilation,
                old(code_generatable_context).module,
                content@,
            ),
            final(code_generatable_context).runtime_requirements@ == old(
                code_generatable_context,
            ).runtime_requirements@.union(
                self.spec_required(
                    old(code_generatable_context).compilation,
                    old(code_generatable_context).module,
                ),
            ),
    {
        let compilation = code_generatable_context.compilation;
        let module = code_generatable_context.module;
        match self.plan(compilation, module) {
            Err(error) => {
                Err(error)
            },
            Ok(Plan::ExcludedTarget { id }) => {
                self.delegate(source, id, false);
                Ok(EmissionPath::ExcludedTarget)
            },
            Ok(Plan::DeadImport { id }) => {
                self.delegate(source, id, false);
                Ok(EmissionPath::DeadImport)
            },
            Ok(Plan::Emit { id, target_async, import_var, exports_argument }) => {
                self.delegate(source, id, true);
                let ImportContent { head, tail } = content;
                if target_async {
                    code_generatable_context.init_fragments.append(
                        InitFragment::new(head, InitFragmentStage::HarmonyImports, None),
                    );
                    code_generatable_context.init_fragments.append(
                        InitFragment::new(
                            async_dependencies_block(import_var),
                            InitFragmentStage::HarmonyImports,
                            None,
                        ),
                    );
                    code_generatable_context.init_fragments.append(
                        InitFragment::new(tail, InitFragmentStage::AsyncHarmonyImports, None),
                    );
                } else {
                    code_generatable_context.init_fragments.append(
                        InitFragment::new(
                            head.concat(tail.as_str()),
                            InitFragmentStage::HarmonyImports,
                            None,
                        ),
                    );
                }
                if let Some(exports_argument) = exports_argument {
                    code_generatable_context.runtime_requirements.add(RuntimeGlobal::ExportStar);
                    let stage = if target_async {
                        InitFragmentStage::AsyncHarmonyImports
                    } else {
                        InitFragmentStage::HarmonyImports
                    };
                    code_generatable_context.init_fragments.append(
                        InitFragment::new(
                            export_star_call(import_var, exports_argument),
                            stage,
                            None,
                        ),
                    );
                }
                Ok(EmissionPath::Emitted)
            },
        }
    }

    /// The edge's id, if it has been assigned.
    pub fn id(&self) -> (id: Option<DependencyId>)
        ensures
            id == self.id,
    {
        self.id
    }

    pub fn set_id(&mut self, id: Option<DependencyId>)
        ensures
            *final(self) == (HarmonyImportDependency { id, ..*old(self) }),
    {
        self.id = id;
    }

    /// Every such edge belongs to the ECMAScript module system.
    pub fn category(&self) -> (category: DependencyCategory)
        ensures
            category == DependencyCategory::Esm,
    {
        DependencyCategory::Esm
    }

    pub fn dependency_type(&self) -> (dependency_type: DependencyType)
        ensures
            dependency_type == self.dependency_type,
    {
        self.dependency_type
    }

    pub fn request(&self) -> (request: &str)
        ensures
            request@ == self.request@,
    {
        self.request.as_str()
    }

    /// The request as the user wrote it, which is the request itself.
    pub fn user_request(&self) -> (request: &str)
        ensures
            request@ == self.request@,
    {
        self.request.as_str()
    }

    pub fn span(&self) -> (span: Option<&ErrorSpan>)
        ensures
            match span {
                Some(span) => self.span == Some(*span),
                None => self.span.is_none(),
            },
    {
        self.span.as_ref()
    }

    /// The edge as something that code can be generated for: itself.
    pub fn as_code_generatable_dependency(&self) -> (dependency: Option<&HarmonyImportDependency>)
        ensures
            dependency == Some(self),
    {
        Some(self)
    }

    pub fn set_request(&mut self, request: String)
        ensures
            *final(self) == (HarmonyImportDependency { request, ..*old(self) }),
    {
        self.request = request;
    }
}

} // verus!
