use harmony_import::codegen::{async_dependencies_block, export_star_call};
use harmony_import::{
    InitFragment, InitFragmentLedger, InitFragmentStage, RuntimeGlobal, RuntimeGlobals,
};

fn early(text: &str) -> InitFragment {
    InitFragment::new(text.to_string(), InitFragmentStage::HarmonyImports, None)
}

fn late(text: &str) -> InitFragment {
    InitFragment::new(text.to_string(), InitFragmentStage::AsyncHarmonyImports, None)
}

fn contents(fragments: &[InitFragment]) -> Vec<&str> {
    fragments.iter().map(|fragment| fragment.content.as_str()).collect()
}

#[test]
fn new_ledger_is_empty() {
    let ledger = InitFragmentLedger::new();
    assert!(ledger.is_empty());
    assert_eq!(ledger.len(), 0);
    assert_eq!(ledger.get(0), None);
    assert_eq!(ledger.drain(), vec![]);
}

#[test]
fn append_keeps_the_order_of_the_calls() {
    let mut ledger = InitFragmentLedger::new();
    ledger.append(late("a"));
    ledger.append(early("b"));
    ledger.append(late("c"));
    assert_eq!(ledger.len(), 3);
    assert!(!ledger.is_empty());
    assert_eq!(ledger.get(0), Some(&late("a")));
    assert_eq!(ledger.get(1), Some(&early("b")));
    assert_eq!(ledger.get(2), Some(&late("c")));
    assert_eq!(ledger.get(3), None);
}

#[test]
fn drain_orders_by_stage_and_then_by_insertion() {
    let mut ledger = InitFragmentLedger::new();
    for fragment in [late("a1"), early("h1"), late("a2"), early("h2"), early("h3"), late("a3")] {
        ledger.append(fragment);
    }
    let drained = ledger.drain();
    assert_eq!(contents(&drained), vec!["h1", "h2", "h3", "a1", "a2", "a3"]);
    assert_eq!(drained[2].stage, InitFragmentStage::HarmonyImports);
    assert_eq!(drained[3].stage, InitFragmentStage::AsyncHarmonyImports);
}

#[test]
fn drain_of_one_stage_changes_nothing() {
    let mut ledger = InitFragmentLedger::new();
    ledger.append(late("x"));
    ledger.append(late("y"));
    ledger.append(late("x"));
    assert_eq!(contents(&ledger.drain()), vec!["x", "y", "x"]);
    let mut ledger = InitFragmentLedger::new();
    ledger.append(early("y"));
    ledger.append(early("x"));
    assert_eq!(contents(&ledger.drain()), vec!["y", "x"]);
}

#[test]
fn drain_carries_the_ordering_hint_along_and_does_not_order_by_it() {
    let mut ledger = InitFragmentLedger::new();
    ledger.append(InitFragment::new("b".to_string(), InitFragmentStage::HarmonyImports, Some(9)));
    ledger.append(InitFragment::new("a".to_string(), InitFragmentStage::HarmonyImports, Some(-1)));
    ledger.append(InitFragment::new("c".to_string(), InitFragmentStage::HarmonyImports, None));
    let drained = ledger.drain();
    assert_eq!(contents(&drained), vec!["b", "a", "c"]);
    assert_eq!(drained[0].ordering_hint, Some(9));
    assert_eq!(drained[1].ordering_hint, Some(-1));
    assert_eq!(drained[2].ordering_hint, None);
}

#[test]
fn same_appends_drain_alike() {
    let build = || {
        let mut ledger = InitFragmentLedger::new();
        ledger.append(late("t"));
        ledger.append(early("u"));
        ledger.append(early("v"));
        ledger
    };
    assert_eq!(build().drain(), build().drain());
    assert_eq!(build().drain(), vec![early("u"), early("v"), late("t")]);
}

#[test]
fn stages_rank_imports_before_asynchronous_imports() {
    assert_eq!(InitFragmentStage::HarmonyImports.rank(), 0);
    assert_eq!(InitFragmentStage::AsyncHarmonyImports.rank(), 1);
}

#[test]
fn runtime_globals_hold_what_was_added() {
    let mut helpers = RuntimeGlobals::new();
    assert!(helpers.is_empty());
    assert!(!helpers.contains(RuntimeGlobal::ExportStar));
    helpers.add(RuntimeGlobal::ExportStar);
    assert!(!helpers.is_empty());
    assert!(helpers.contains(RuntimeGlobal::ExportStar));
    assert!(!helpers.contains(RuntimeGlobal::Require));
    helpers.add(RuntimeGlobal::ExportStar);
    helpers.add(RuntimeGlobal::Require);
    assert!(helpers.contains(RuntimeGlobal::ExportStar));
    assert!(helpers.contains(RuntimeGlobal::Require));
    let mut other = RuntimeGlobals::new();
    other.add(RuntimeGlobal::Require);
    other.add(RuntimeGlobal::ExportStar);
    assert_eq!(helpers, other);
}

#[test]
fn runtime_globals_have_their_names() {
    assert_eq!(RuntimeGlobal::Require.name(), "__webpack_require__");
    assert_eq!(RuntimeGlobal::ExportStar.name(), "es");
}

#[test]
fn async_dependencies_block_names_the_import_variable_twice() {
    assert_eq!(
        async_dependencies_block("m0"),
        "var __webpack_async_dependencies__ = __webpack_handle_async_dependencies__([m0]);\n([m0] = __webpack_async_dependencies__.then ? (await __webpack_async_dependencies__)() : __webpack_async_dependencies__);"
    );
    assert_eq!(
        async_dependencies_block(""),
        "var __webpack_async_dependencies__ = __webpack_handle_async_dependencies__([]);\n([] = __webpack_async_dependencies__.then ? (await __webpack_async_dependencies__)() : __webpack_async_dependencies__);"
    );
}

#[test]
fn export_star_call_hands_over_import_variable_and_exports_object() {
    assert_eq!(export_star_call("m0", "exports"), "__webpack_require__.es(m0, exports);\n");
    assert_eq!(
        export_star_call("_a__WEBPACK_IMPORTED_MODULE_1__", "__webpack_exports__"),
        "__webpack_require__.es(_a__WEBPACK_IMPORTED_MODULE_1__, __webpack_exports__);\n"
    );
}
