use harmony_import::{
    CodeGeneratableContext, CodeGeneratableSource, Compilation, DependencyId, DependencyType,
    EmissionPath, HarmonyImportDependency, HarmonyImportSpecifierDependency, IdentifierSet,
    ImportContent, InitFragment, InitFragmentStage, InvariantViolation, ModuleGraph,
    ModuleGraphModule, ModuleIdentifier, ModuleType, RuntimeGlobal, Specifier, SymbolRef,
    SymbolRefSet,
};

const CONSUMER: ModuleIdentifier = ModuleIdentifier(1);
const TARGET: ModuleIdentifier = ModuleIdentifier(2);
const EDGE: DependencyId = DependencyId(7);
const IMPORT_VAR: &str = "_b__WEBPACK_IMPORTED_MODULE_0__";
const HEAD: &str = "/* harmony import */var _b__WEBPACK_IMPORTED_MODULE_0__ = __webpack_require__(\"./b\");\n";
const TAIL: &str = "/* harmony import */var _b__WEBPACK_IMPORTED_MODULE_0___default = __webpack_require__.n(_b__WEBPACK_IMPORTED_MODULE_0__);\n";

fn graph(target_async: bool, target_type: ModuleType) -> ModuleGraph {
    let mut graph = ModuleGraph::new();
    graph.add_module_graph_module(ModuleGraphModule::new(
        CONSUMER,
        ModuleType::Js,
        false,
        "__webpack_exports__".to_string(),
    ));
    graph.add_module_graph_module(ModuleGraphModule::new(
        TARGET,
        target_type,
        target_async,
        "exports".to_string(),
    ));
    graph.set_resolved_module(EDGE, TARGET);
    graph.set_import_var(CONSUMER, "./b".to_string(), IMPORT_VAR.to_string());
    graph
}

fn set_of(modules: &[ModuleIdentifier]) -> IdentifierSet {
    let mut set = IdentifierSet::new();
    for module in modules {
        set.insert(*module);
    }
    set
}

fn symbols(list: Vec<SymbolRef>) -> SymbolRefSet {
    let mut set = SymbolRefSet::new();
    for symbol in list {
        set.insert(symbol);
    }
    set
}

fn snapshot(
    target_async: bool,
    used: Vec<SymbolRef>,
    side_effect_free: &[ModuleIdentifier],
    included: &[ModuleIdentifier],
) -> Compilation {
    Compilation::new(
        graph(target_async, ModuleType::Js),
        symbols(used),
        set_of(side_effect_free),
        set_of(included),
    )
}

fn edge(
    specifiers: Vec<Specifier>,
    dependency_type: DependencyType,
    export_all: bool,
    sites: usize,
) -> HarmonyImportDependency {
    let mut refs = Vec::new();
    for i in 0..sites {
        refs.push(HarmonyImportSpecifierDependency::new(10 * i as u32, 10 * i as u32 + 3));
    }
    let mut edge = HarmonyImportDependency::new(
        "./b".to_string(),
        None,
        refs,
        specifiers,
        dependency_type,
        export_all,
    );
    edge.set_id(Some(EDGE));
    edge
}

fn content() -> ImportContent {
    ImportContent::new(HEAD.to_string(), TAIL.to_string())
}

fn named_x() -> Vec<Specifier> {
    vec![Specifier::Named("x".to_string(), None)]
}

fn import_of_x() -> SymbolRef {
    SymbolRef::import(TARGET, "x".to_string(), None, CONSUMER)
}

fn fragments(context: CodeGeneratableContext) -> Vec<InitFragment> {
    let mut all = Vec::new();
    let mut i = 0;
    while let Some(fragment) = context.init_fragments.get(i) {
        all.push(fragment.clone());
        i += 1;
    }
    all
}

fn flags(source: &CodeGeneratableSource) -> Vec<bool> {
    let mut all = Vec::new();
    let mut i = 0;
    while let Some(delegation) = source.get(i) {
        all.push(delegation.used);
        i += 1;
    }
    all
}

fn async_block(import_var: &str) -> String {
    format!(
        "var __webpack_async_dependencies__ = __webpack_handle_async_dependencies__([{import_var}]);\n([{import_var}] = __webpack_async_dependencies__.then ? (await __webpack_async_dependencies__)() : __webpack_async_dependencies__);"
    )
}

#[test]
fn live_named_import_of_sync_module_emits_one_fragment() {
    let compilation = snapshot(false, vec![import_of_x()], &[], &[TARGET]);
    let edge = edge(named_x(), DependencyType::EsmImport, false, 1);
    let mut source = CodeGeneratableSource::new();
    let mut context = CodeGeneratableContext::new(&compilation, CONSUMER);
    let result = edge.apply(&mut source, &mut context, content());
    assert_eq!(result, Ok(EmissionPath::Emitted));
    assert!(context.runtime_requirements.is_empty());
    assert_eq!(
        fragments(context),
        vec![InitFragment::new(
            format!("{}{}", HEAD, TAIL),
            InitFragmentStage::HarmonyImports,
            None
        )]
    );
    assert_eq!(flags(&source), vec![true]);
}

#[test]
fn dead_import_of_side_effect_free_module_emits_nothing() {
    let compilation = snapshot(false, vec![], &[TARGET], &[TARGET]);
    let edge = edge(named_x(), DependencyType::EsmImport, false, 2);
    let mut source = CodeGeneratableSource::new();
    let mut context = CodeGeneratableContext::new(&compilation, CONSUMER);
    let result = edge.apply(&mut source, &mut context, content());
    assert_eq!(result, Ok(EmissionPath::DeadImport));
    assert!(context.runtime_requirements.is_empty());
    assert!(context.init_fragments.is_empty());
    assert_eq!(source.len(), 2);
    assert_eq!(flags(&source), vec![false, false]);
    let first = source.get(0).unwrap();
    assert_eq!(first.dependency, HarmonyImportSpecifierDependency::new(0, 3));
    assert_eq!(first.id, EDGE);
    assert_eq!(first.request, "./b");
    let second = source.get(1).unwrap();
    assert_eq!(second.dependency, HarmonyImportSpecifierDependency::new(10, 13));
}

#[test]
fn export_all_of_async_module_emits_four_fragments() {
    let compilation = snapshot(true, vec![], &[], &[TARGET]);
    let edge = edge(vec![], DependencyType::EsmExportAll, true, 0);
    let mut source = CodeGeneratableSource::new();
    let mut context = CodeGeneratableContext::new(&compilation, CONSUMER);
    let result = edge.apply(&mut source, &mut context, content());
    assert_eq!(result, Ok(EmissionPath::Emitted));
    assert!(context.runtime_requirements.contains(RuntimeGlobal::ExportStar));
    assert!(!context.runtime_requirements.contains(RuntimeGlobal::Require));
    assert_eq!(
        fragments(context),
        vec![
            InitFragment::new(HEAD.to_string(), InitFragmentStage::HarmonyImports, None),
            InitFragment::new(async_block(IMPORT_VAR), InitFragmentStage::HarmonyImports, None),
            InitFragment::new(TAIL.to_string(), InitFragmentStage::AsyncHarmonyImports, None),
            InitFragment::new(
                format!("__webpack_require__.es({}, __webpack_exports__);\n", IMPORT_VAR),
                InitFragmentStage::AsyncHarmonyImports,
                None
            ),
        ]
    );
}

#[test]
fn export_all_of_sync_module_stages_the_call_with_the_import() {
    let compilation = snapshot(false, vec![], &[TARGET], &[TARGET]);
    let edge = edge(named_x(), DependencyType::EsmExport, true, 0);
    let mut source = CodeGeneratableSource::new();
    let mut context = CodeGeneratableContext::new(&compilation, CONSUMER);
    let result = edge.apply(&mut source, &mut context, content());
    assert_eq!(result, Ok(EmissionPath::Emitted));
    assert!(context.runtime_requirements.contains(RuntimeGlobal::ExportStar));
    assert_eq!(
        fragments(context),
        vec![
            InitFragment::new(
                format!("{}{}", HEAD, TAIL),
                InitFragmentStage::HarmonyImports,
                None
            ),
            InitFragment::new(
                format!("__webpack_require__.es({}, __webpack_exports__);\n", IMPORT_VAR),
                InitFragmentStage::HarmonyImports,
                None
            ),
        ]
    );
}

#[test]
fn async_import_emits_declaration_wait_and_bindings_in_order() {
    let compilation = snapshot(true, vec![import_of_x()], &[TARGET], &[TARGET]);
    let edge = edge(named_x(), DependencyType::EsmImport, false, 1);
    let mut source = CodeGeneratableSource::new();
    let mut context = CodeGeneratableContext::new(&compilation, CONSUMER);
    let result = edge.apply(&mut source, &mut context, content());
    assert_eq!(result, Ok(EmissionPath::Emitted));
    assert!(context.runtime_requirements.is_empty());
    let emitted = fragments(context);
    let stages: Vec<InitFragmentStage> = emitted.iter().map(|fragment| fragment.stage).collect();
    assert_eq!(
        stages,
        vec![
            InitFragmentStage::HarmonyImports,
            InitFragmentStage::HarmonyImports,
            InitFragmentStage::AsyncHarmonyImports
        ]
    );
    assert_eq!(emitted[0].content, HEAD);
    assert_eq!(emitted[1].content, async_block(IMPORT_VAR));
    assert_eq!(emitted[2].content, TAIL);
}

#[test]
fn unused_import_of_module_with_side_effects_is_still_emitted() {
    let compilation = snapshot(false, vec![], &[], &[TARGET]);
    let edge = edge(named_x(), DependencyType::EsmImport, false, 1);
    let mut source = CodeGeneratableSource::new();
    let mut context = CodeGeneratableContext::new(&compilation, CONSUMER);
    let result = edge.apply(&mut source, &mut context, content());
    assert_eq!(result, Ok(EmissionPath::Emitted));
    assert_eq!(context.init_fragments.len(), 1);
    assert_eq!(flags(&source), vec![true]);
}

#[test]
fn edge_without_specifiers_to_side_effect_free_module_is_dropped() {
    let compilation = snapshot(true, vec![import_of_x()], &[TARGET], &[TARGET]);
    let edge = edge(vec![], DependencyType::EsmImport, false, 0);
    let mut source = CodeGeneratableSource::new();
    let mut context = CodeGeneratableContext::new(&compilation, CONSUMER);
    let result = edge.apply(&mut source, &mut context, content());
    assert_eq!(result, Ok(EmissionPath::DeadImport));
    assert!(context.init_fragments.is_empty());
    assert_eq!(source.len(), 0);
}

#[test]
fn excluded_target_emits_nothing_whatever_is_live() {
    let compilation = snapshot(true, vec![import_of_x()], &[], &[CONSUMER]);
    let edge = edge(named_x(), DependencyType::EsmImport, false, 3);
    let mut source = CodeGeneratableSource::new();
    let mut context = CodeGeneratableContext::new(&compilation, CONSUMER);
    let result = edge.apply(&mut source, &mut context, content());
    assert_eq!(result, Ok(EmissionPath::ExcludedTarget));
    assert!(context.init_fragments.is_empty());
    assert!(context.runtime_requirements.is_empty());
    assert_eq!(flags(&source), vec![false, false, false]);
}

#[test]
fn excluded_target_is_tested_before_the_specifiers_are_read() {
    let compilation = snapshot(false, vec![], &[], &[]);
    let edge = edge(
        vec![Specifier::Default("v".to_string())],
        DependencyType::EsmExport,
        true,
        1,
    );
    let mut source = CodeGeneratableSource::new();
    let mut context = CodeGeneratableContext::new(&compilation, CONSUMER);
    let result = edge.apply(&mut source, &mut context, content());
    assert_eq!(result, Ok(EmissionPath::ExcludedTarget));
    assert!(context.init_fragments.is_empty());
    assert!(context.runtime_requirements.is_empty());
    assert_eq!(flags(&source), vec![false]);
}

#[test]
fn edge_without_id_is_fatal() {
    let compilation = snapshot(false, vec![import_of_x()], &[], &[TARGET]);
    let mut edge = edge(named_x(), DependencyType::EsmImport, false, 1);
    edge.set_id(None);
    let mut source = CodeGeneratableSource::new();
    let mut context = CodeGeneratableContext::new(&compilation, CONSUMER);
    let error = edge.apply(&mut source, &mut context, content()).unwrap_err();
    assert_eq!(error.violation, InvariantViolation::MissingDependencyId);
    assert_eq!(error.id, None);
    assert_eq!(error.request, "./b");
    assert!(context.init_fragments.is_empty());
    assert!(context.runtime_requirements.is_empty());
    assert_eq!(source.len(), 0);
}

#[test]
fn new_edge_has_no_id_and_is_fatal() {
    let compilation = snapshot(false, vec![], &[], &[TARGET]);
    let edge = HarmonyImportDependency::new(
        "./b".to_string(),
        None,
        vec![],
        vec![],
        DependencyType::EsmImport,
        false,
    );
    assert_eq!(edge.id(), None);
    let error = edge.emission_path(&compilation, CONSUMER).unwrap_err();
    assert_eq!(error.violation, InvariantViolation::MissingDependencyId);
}

#[test]
fn unresolved_edge_is_fatal() {
    let compilation = snapshot(false, vec![import_of_x()], &[], &[TARGET]);
    let mut edge = edge(named_x(), DependencyType::EsmImport, false, 1);
    edge.set_id(Some(DependencyId(8)));
    let mut source = CodeGeneratableSource::new();
    let mut context = CodeGeneratableContext::new(&compilation, CONSUMER);
    let error = edge.apply(&mut source, &mut context, content()).unwrap_err();
    assert_eq!(error.violation, InvariantViolation::MissingReferencedModule);
    assert_eq!(error.id, Some(DependencyId(8)));
    assert!(context.init_fragments.is_empty());
    assert_eq!(source.len(), 0);
}

#[test]
fn edge_resolved_to_module_without_record_is_fatal() {
    let mut graph = graph(false, ModuleType::Js);
    graph.set_resolved_module(EDGE, ModuleIdentifier(3));
    let compilation =
        Compilation::new(graph, SymbolRefSet::new(), IdentifierSet::new(), set_of(&[TARGET]));
    let edge = edge(named_x(), DependencyType::EsmImport, false, 0);
    let error = edge.emission_path(&compilation, CONSUMER).unwrap_err();
    assert_eq!(error.violation, InvariantViolation::MissingReferencedModule);
}

#[test]
fn default_specifier_on_re_export_is_fatal() {
    let compilation = snapshot(false, vec![], &[TARGET], &[TARGET]);
    let edge = edge(
        vec![Specifier::Named("x".to_string(), None), Specifier::Default("v".to_string())],
        DependencyType::EsmExport,
        false,
        2,
    );
    let mut source = CodeGeneratableSource::new();
    let mut context = CodeGeneratableContext::new(&compilation, CONSUMER);
    let error = edge.apply(&mut source, &mut context, content()).unwrap_err();
    assert_eq!(error.violation, InvariantViolation::DefaultSpecifierOnReExport);
    assert_eq!(error.id, Some(EDGE));
    assert_eq!(error.request, "./b");
    assert!(context.init_fragments.is_empty());
    assert!(context.runtime_requirements.is_empty());
    assert_eq!(source.len(), 0);
}

#[test]
fn default_specifier_is_not_read_where_everything_is_re_exported() {
    let compilation = snapshot(false, vec![], &[TARGET], &[TARGET]);
    let edge = edge(
        vec![Specifier::Default("v".to_string())],
        DependencyType::EsmExportAll,
        true,
        0,
    );
    assert_eq!(edge.emission_path(&compilation, CONSUMER), Ok(EmissionPath::Emitted));
}

#[test]
fn missing_import_variable_is_fatal() {
    let compilation = snapshot(false, vec![import_of_x()], &[], &[TARGET]);
    let mut edge = edge(named_x(), DependencyType::EsmImport, false, 1);
    edge.set_request("./c".to_string());
    let mut source = CodeGeneratableSource::new();
    let mut context = CodeGeneratableContext::new(&compilation, CONSUMER);
    let error = edge.apply(&mut source, &mut context, content()).unwrap_err();
    assert_eq!(error.violation, InvariantViolation::MissingImportVar);
    assert_eq!(error.request, "./c");
    assert!(context.init_fragments.is_empty());
    assert_eq!(source.len(), 0);
}

#[test]
fn export_all_from_module_without_record_is_fatal() {
    let mut graph = ModuleGraph::new();
    graph.add_module_graph_module(ModuleGraphModule::new(
        TARGET,
        ModuleType::Js,
        false,
        "exports".to_string(),
    ));
    graph.set_resolved_module(EDGE, TARGET);
    graph.set_import_var(CONSUMER, "./b".to_string(), IMPORT_VAR.to_string());
    let compilation =
        Compilation::new(graph, SymbolRefSet::new(), IdentifierSet::new(), set_of(&[TARGET]));
    let star = edge(vec![], DependencyType::EsmExportAll, true, 1);
    let mut source = CodeGeneratableSource::new();
    let mut context = CodeGeneratableContext::new(&compilation, CONSUMER);
    let error = star.apply(&mut source, &mut context, content()).unwrap_err();
    assert_eq!(error.violation, InvariantViolation::MissingModuleGraphModule);
    assert!(context.init_fragments.is_empty());
    assert!(context.runtime_requirements.is_empty());
    assert_eq!(source.len(), 0);
    let plain = edge(vec![], DependencyType::EsmImport, false, 1);
    assert_eq!(plain.emission_path(&compilation, CONSUMER), Ok(EmissionPath::Emitted));
}

#[test]
fn emission_is_the_same_when_run_again() {
    let first_snapshot = snapshot(true, vec![import_of_x()], &[TARGET], &[TARGET]);
    let second_snapshot = snapshot(true, vec![import_of_x()], &[TARGET], &[TARGET]);
    let edge = edge(named_x(), DependencyType::EsmExport, true, 2);
    let mut first_source = CodeGeneratableSource::new();
    let mut first = CodeGeneratableContext::new(&first_snapshot, CONSUMER);
    let mut second_source = CodeGeneratableSource::new();
    let mut second = CodeGeneratableContext::new(&second_snapshot, CONSUMER);
    assert_eq!(
        edge.apply(&mut first_source, &mut first, content()),
        edge.apply(&mut second_source, &mut second, content())
    );
    assert_eq!(first.runtime_requirements, second.runtime_requirements);
    assert_eq!(flags(&first_source), flags(&second_source));
    let first_fragments = fragments(first);
    assert_eq!(first_fragments.len(), 4);
    assert_eq!(first_fragments, fragments(second));
}

#[test]
fn emission_appends_behind_what_the_ledger_holds() {
    let compilation = snapshot(false, vec![import_of_x()], &[], &[TARGET]);
    let edge = edge(named_x(), DependencyType::EsmImport, false, 0);
    let mut source = CodeGeneratableSource::new();
    let mut context = CodeGeneratableContext::new(&compilation, CONSUMER);
    context.init_fragments.append(InitFragment::new(
        "first".to_string(),
        InitFragmentStage::AsyncHarmonyImports,
        None,
    ));
    context.runtime_requirements.add(RuntimeGlobal::Require);
    assert_eq!(edge.apply(&mut source, &mut context, content()), Ok(EmissionPath::Emitted));
    assert_eq!(edge.apply(&mut source, &mut context, content()), Ok(EmissionPath::Emitted));
    assert!(context.runtime_requirements.contains(RuntimeGlobal::Require));
    assert!(!context.runtime_requirements.contains(RuntimeGlobal::ExportStar));
    let all = fragments(context);
    assert_eq!(all.len(), 3);
    assert_eq!(all[0].content, "first");
    assert_eq!(all[1].content, format!("{}{}", HEAD, TAIL));
    assert_eq!(all[1], all[2]);
}

#[test]
fn emission_path_agrees_with_apply() {
    let compilation = snapshot(false, vec![], &[TARGET], &[TARGET]);
    let edge = edge(named_x(), DependencyType::EsmImport, false, 1);
    let mut source = CodeGeneratableSource::new();
    let mut context = CodeGeneratableContext::new(&compilation, CONSUMER);
    assert_eq!(edge.emission_path(&compilation, CONSUMER), Ok(EmissionPath::DeadImport));
    assert_eq!(
        edge.apply(&mut source, &mut context, content()),
        Ok(EmissionPath::DeadImport)
    );
    assert_eq!(context.module, CONSUMER);
}
