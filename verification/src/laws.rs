//! What holds of every edge and every ledger, proved from the definitions
//! that the functions' contracts are stated in.

use vstd::prelude::*;
use crate::codegen::{
    spec_async_dependencies_block, ImportContentView, SpecifierDelegationView,
};
use crate::compilation::Compilation;
use crate::error::InvariantViolation;
use crate::harmony_import_dependency::{
    export_star_fragment, import_fragments, specifier_views, EmissionPath,
    HarmonyImportDependency,
};
use crate::init_fragment::{in_stage, stage_order, InitFragmentStage, InitFragmentView};
use crate::module_graph::ModuleIdentifier;
use crate::runtime_globals::RuntimeGlobal;

verus! {

/// Whether two edges are the same but for how their text is stored.
pub open spec fn same_edge(first: HarmonyImportDependency, second: HarmonyImportDependency) -> bool {
    &&& first.request@ == second.request@
    &&& first.id == second.id
    &&& first.span == second.span
    &&& first.refs@ == second.refs@
    &&& specifier_views(first.specifiers@) == specifier_views(second.specifiers@)
    &&& first.dependency_type == second.dependency_type
    &&& first.export_all == second.export_all
}

/// Whether two snapshots answer every question alike.
pub open spec fn same_snapshot(first: Compilation, second: Compilation) -> bool {
    &&& first.module_graph.records() == second.module_graph.records()
    &&& first.module_graph.targets() == second.module_graph.targets()
    &&& first.module_graph.import_vars() == second.module_graph.import_vars()
    &&& first.used_symbol_ref@ == second.used_symbol_ref@
    &&& first.side_effects_free_modules@ == second.side_effects_free_modules@
    &&& first.include_module_ids@ == second.include_module_ids@
}

/// Code generation for an edge is a function of the edge, the snapshot, the
/// module and the import statement: run again on the same edge, with the
/// same graph and the same sets, it takes the same path, appends the same
/// fragments, requires the same helpers and gives the same orders. What the
/// ledger held before has no part in it.
pub proof fn lemma_emission_is_deterministic(
    first: HarmonyImportDependency,
    second: HarmonyImportDependency,
    first_snapshot: Compilation,
    second_snapshot: Compilation,
    module: ModuleIdentifier,
    content: ImportContentView,
)
    requires
        same_edge(first, second),
        same_snapshot(first_snapshot, second_snapshot),
    ensures
        first.spec_emission_path(&first_snapshot, module) == second.spec_emission_path(
            &second_snapshot,
            module,
        ),
        first.spec_emitted(&first_snapshot, module, content) == second.spec_emitted(
            &second_snapshot,
            module,
            content,
        ),
        first.spec_required(&first_snapshot, module) == second.spec_required(
            &second_snapshot,
            module,
        ),
        first.spec_delegated(&first_snapshot, module) == second.spec_delegated(
            &second_snapshot,
            module,
        ),
{
}

/// Where an edge re-exports everything, its specifiers are not read: two
/// such edges that differ in their specifiers alone generate the same code.
pub proof fn lemma_export_all_ignores_specifiers(
    first: HarmonyImportDependency,
    second: HarmonyImportDependency,
    compilation: Compilation,
    module: ModuleIdentifier,
    content: ImportContentView,
)
    requires
        first.export_all,
        second.export_all,
        first.request@ == second.request@,
        first.id == second.id,
        first.refs@ == second.refs@,
        first.dependency_type == second.dependency_type,
    ensures
        first.spec_emission_path(&compilation, module) == second.spec_emission_path(
            &compilation,
            module,
        ),
        first.spec_emitted(&compilation, module, content) == second.spec_emitted(
            &compilation,
            module,
            content,
        ),
        first.spec_required(&compilation, module) == second.spec_required(&compilation, module),
        first.spec_delegated(&compilation, module) == second.spec_delegated(&compilation, module),
{
}

/// Code generation that fails changes nothing: it appends no fragment,
/// requires no helper and gives no order.
pub proof fn lemma_failure_emits_nothing(
    edge: HarmonyImportDependency,
    compilation: Compilation,
    module: ModuleIdentifier,
    content: ImportContentView,
)
    requires
        edge.spec_emission_path(&compilation, module).is_err(),
    ensures
        edge.spec_emitted(&compilation, module, content) == Seq::<InitFragmentView>::empty(),
        edge.spec_required(&compilation, module) == Set::<RuntimeGlobal>::empty(),
        edge.spec_delegated(&compilation, module) == Seq::<SpecifierDelegationView>::empty(),
{
}

/// An import with no live specifier from a module without side effects is
/// dropped: no fragment, no helper, and every use site is told that the
/// import is gone.
pub proof fn lemma_dead_import_is_elided(
    edge: HarmonyImportDependency,
    compilation: Compilation,
    module: ModuleIdentifier,
    content: ImportContentView,
)
    requires
        edge.id.is_some(),
        compilation.module_graph.target_record(edge.id.unwrap()).is_some(),
        compilation.include_module_ids@.contains(
            compilation.module_graph.target_record(edge.id.unwrap()).unwrap().module_identifier,
        ),
        !edge.export_all,
        !edge.spec_has_stray_default(),
        edge.spec_live_specifiers(
            compilation.module_graph.target_record(edge.id.unwrap()).unwrap(),
            module,
            compilation.used_symbol_ref@,
        ).len() == 0,
        compilation.side_effects_free_modules@.contains(
            compilation.module_graph.target_record(edge.id.unwrap()).unwrap().module_identifier,
        ),
    ensures
        edge.spec_emission_path(&compilation, module) matches Ok(EmissionPath::DeadImport),
        edge.spec_emitted(&compilation, module, content) == Seq::<InitFragmentView>::empty(),
        edge.spec_required(&compilation, module) == Set::<RuntimeGlobal>::empty(),
        edge.spec_delegated(&compilation, module) == edge.spec_delegations(
            edge.id.unwrap(),
            false,
        ),
{
}

/// An import from a module that may have side effects is emitted although no
/// specifier is live, so that the module runs. This needs the import's
/// variable name: without it code generation fails.
pub proof fn lemma_side_effects_are_kept(
    edge: HarmonyImportDependency,
    compilation: Compilation,
    module: ModuleIdentifier,
    content: ImportContentView,
)
    requires
        edge.id.is_some(),
        compilation.module_graph.target_record(edge.id.unwrap()).is_some(),
        compilation.include_module_ids@.contains(
            compilation.module_graph.target_record(edge.id.unwrap()).unwrap().module_identifier,
        ),
        !edge.export_all,
        !edge.spec_has_stray_default(),
        edge.spec_live_specifiers(
            compilation.module_graph.target_record(edge.id.unwrap()).unwrap(),
            module,
            compilation.used_symbol_ref@,
        ).len() == 0,
        !compilation.side_effects_free_modules@.contains(
            compilation.module_graph.target_record(edge.id.unwrap()).unwrap().module_identifier,
        ),
        compilation.module_graph.import_vars().contains_key((module, edge.request@)),
    ensures
        edge.spec_emits(&compilation, module),
        edge.spec_emitted(&compilation, module, content).len() >= 1,
        edge.spec_delegated(&compilation, module) == edge.spec_delegations(edge.id.unwrap(), true),
{
}

/// An edge to a module that is not part of the output emits nothing,
/// whatever is live and whatever has side effects; every use site is told
/// that the import is gone.
pub proof fn lemma_excluded_target_emits_nothing(
    edge: HarmonyImportDependency,
    compilation: Compilation,
    module: ModuleIdentifier,
    content: ImportContentView,
)
    requires
        edge.id.is_some(),
        compilation.module_graph.target_record(edge.id.unwrap()).is_some(),
        !compilation.include_module_ids@.contains(
            compilation.module_graph.target_record(edge.id.unwrap()).unwrap().module_identifier,
        ),
    ensures
        edge.spec_emission_path(&compilation, module) matches Ok(EmissionPath::ExcludedTarget),
        edge.spec_emitted(&compilation, module, content) == Seq::<InitFragmentView>::empty(),
        edge.spec_required(&compilation, module) == Set::<RuntimeGlobal>::empty(),
        edge.spec_delegated(&compilation, module) == edge.spec_delegations(
            edge.id.unwrap(),
            false,
        ),
{
}

/// The import of an asynchronous module is emitted as three fragments, in
/// this order: the declaration and the wait for the module to settle, both
/// in the stage of imports, and then the bindings, in the stage of
/// asynchronous imports. Only a re-export of everything follows them.
pub proof fn lemma_async_import_order(
    edge: HarmonyImportDependency,
    compilation: Compilation,
    module: ModuleIdentifier,
    content: ImportContentView,
)
    requires
        edge.spec_emits(&compilation, module),
        compilation.module_graph.target_record(edge.id.unwrap()).unwrap().is_async,
    ensures
        ({
            let emitted = edge.spec_emitted(&compilation, module, content);
            let import_var = compilation.module_graph.import_vars()[(module, edge.request@)];
            &&& emitted.len() == if edge.export_all {
                4int
            } else {
                3int
            }
            &&& emitted[0] == (InitFragmentView {
                content: content.head,
                stage: InitFragmentStage::HarmonyImports,
                ordering_hint: None,
            })
            &&& emitted[1] == (InitFragmentView {
                content: spec_async_dependencies_block(import_var),
                stage: InitFragmentStage::HarmonyImports,
                ordering_hint: None,
            })
            &&& emitted[2] == (InitFragmentView {
                content: content.tail,
                stage: InitFragmentStage::AsyncHarmonyImports,
                ordering_hint: None,
            })
            &&& emitted.take(3).map_values(|fragment: InitFragmentView| fragment.stage) == seq![
                InitFragmentStage::HarmonyImports,
                InitFragmentStage::HarmonyImports,
                InitFragmentStage::AsyncHarmonyImports,
            ]
        }),
{
}

/// The import of a synchronous module is emitted as one fragment, which
/// holds both parts of the import statement.
pub proof fn lemma_sync_import_is_one_fragment(
    edge: HarmonyImportDependency,
    compilation: Compilation,
    module: ModuleIdentifier,
    content: ImportContentView,
)
    requires
        edge.spec_emits(&compilation, module),
        !compilation.module_graph.target_record(edge.id.unwrap()).unwrap().is_async,
    ensures
        ({
            let emitted = edge.spec_emitted(&compilation, module, content);
            &&& emitted.len() == if edge.export_all {
                2int
            } else {
                1int
            }
            &&& emitted[0] == (InitFragmentView {
                content: content.head + content.tail,
                stage: InitFragmentStage::HarmonyImports,
                ordering_hint: None,
            })
        }),
{
}

/// Where an import is emitted, the helper that re-exports everything is
/// required if and only if the edge re-exports everything. The fragment that
/// calls it is then the last one emitted, and its stage is that of
/// asynchronous imports if and only if the target module is asynchronous.
pub proof fn lemma_export_star_staging(
    edge: HarmonyImportDependency,
    compilation: Compilation,
    module: ModuleIdentifier,
    content: ImportContentView,
)
    requires
        edge.spec_emits(&compilation, module),
    ensures
        edge.spec_required(&compilation, module).contains(RuntimeGlobal::ExportStar)
            <==> edge.export_all,
        ({
            let target = compilation.module_graph.target_record(edge.id.unwrap()).unwrap();
            let import_var = compilation.module_graph.import_vars()[(module, edge.request@)];
            let emitted = edge.spec_emitted(&compilation, module, content);
            if edge.export_all {
                &&& emitted.drop_last() == import_fragments(content, target.is_async, import_var)
                &&& emitted.last() == export_star_fragment(
                    target.is_async,
                    import_var,
                    compilation.module_graph.records()[module].exports_argument,
                )
                &&& emitted.last().stage == InitFragmentStage::AsyncHarmonyImports
                    <==> target.is_async
                &&& emitted.last().stage == InitFragmentStage::HarmonyImports <==> !target.is_async
            } else {
                emitted == import_fragments(content, target.is_async, import_var)
            }
        }),
{
}

/// An edge without an id ends code generation, and nothing is emitted for
/// it.
pub proof fn lemma_missing_id_is_fatal(
    edge: HarmonyImportDependency,
    compilation: Compilation,
    module: ModuleIdentifier,
    content: ImportContentView,
)
    requires
        edge.id.is_none(),
    ensures
        edge.spec_emission_path(&compilation, module) matches Err(
            InvariantViolation::MissingDependencyId,
        ),
        edge.spec_emitted(&compilation, module, content) == Seq::<InitFragmentView>::empty(),
        edge.spec_required(&compilation, module) == Set::<RuntimeGlobal>::empty(),
        edge.spec_delegated(&compilation, module) == Seq::<SpecifierDelegationView>::empty(),
{
}

/// A default specifier on an edge that does not import ends code
/// generation, and nothing is emitted for the edge. This holds where the
/// specifiers are read: the target module is part of the output and the
/// edge does not re-export everything.
pub proof fn lemma_stray_default_is_fatal(
    edge: HarmonyImportDependency,
    compilation: Compilation,
    module: ModuleIdentifier,
    content: ImportContentView,
)
    requires
        edge.id.is_some(),
        compilation.module_graph.target_record(edge.id.unwrap()).is_some(),
        compilation.include_module_ids@.contains(
            compilation.module_graph.target_record(edge.id.unwrap()).unwrap().module_identifier,
        ),
        !edge.export_all,
        edge.spec_has_stray_default(),
    ensures
        edge.spec_emission_path(&compilation, module) matches Err(
            InvariantViolation::DefaultSpecifierOnReExport,
        ),
        edge.spec_emitted(&compilation, module, content) == Seq::<InitFragmentView>::empty(),
        edge.spec_required(&compilation, module) == Set::<RuntimeGlobal>::empty(),
        edge.spec_delegated(&compilation, module) == Seq::<SpecifierDelegationView>::empty(),
{
}

/// In the order in which fragments run, no fragment comes before one of an
/// earlier stage, wherever in the ledger the two were appended.
pub proof fn lemma_stage_order_ascends(fragments: Seq<InitFragmentView>, p: int, q: int)
    requires
        0 <= p <= q < stage_order(fragments).len(),
    ensures
        stage_order(fragments)[p].stage.spec_rank() <= stage_order(fragments)[q].stage.spec_rank(),
{
}

/// A fragment of the stage of asynchronous imports runs after every
/// fragment of the stage of imports: the bindings of an asynchronous module
/// are never assigned before the wait for it.
pub proof fn lemma_async_stage_runs_later(fragments: Seq<InitFragmentView>, p: int, q: int)
    requires
        0 <= p < stage_order(fragments).len(),
        0 <= q < stage_order(fragments).len(),
        stage_order(fragments)[p].stage == InitFragmentStage::HarmonyImports,
        stage_order(fragments)[q].stage == InitFragmentStage::AsyncHarmonyImports,
    ensures
        p < q,
{
}

/// Whatever else the ledger holds, before or behind what an edge to an
/// asynchronous module appended: when the ledger is drained, the wait for the
/// module and the bindings both come out, and the bindings after the wait.
pub proof fn lemma_bindings_run_after_wait(
    edge: HarmonyImportDependency,
    compilation: Compilation,
    module: ModuleIdentifier,
    content: ImportContentView,
    before: Seq<InitFragmentView>,
    behind: Seq<InitFragmentView>,
)
    requires
        edge.spec_emits(&compilation, module),
        compilation.module_graph.target_record(edge.id.unwrap()).unwrap().is_async,
    ensures
        ({
            let emitted = edge.spec_emitted(&compilation, module, content);
            let ordered = stage_order(before + emitted + behind);
            &&& ordered.contains(emitted[1])
            &&& ordered.contains(emitted[2])
            &&& forall|p: int, q: int|
                0 <= p < ordered.len() && 0 <= q < ordered.len() && ordered[p] == emitted[1]
                    && ordered[q] == emitted[2] ==> p < q
        }),
{
    let emitted = edge.spec_emitted(&compilation, module, content);
    let all = before + emitted + behind;
    let ordered = stage_order(all);
    lemma_stage_order_keeps_all(all);
    all.to_multiset_ensures();
    ordered.to_multiset_ensures();
    assert(all[before.len() as int + 1] == emitted[1]);
    assert(all[before.len() as int + 2] == emitted[2]);
    assert(ordered.to_multiset().count(emitted[1]) > 0);
    assert(ordered.to_multiset().count(emitted[2]) > 0);
}

/// Ordering by stage keeps the fragments of each stage as they were, in the
/// order in which they were appended.
pub proof fn lemma_stage_order_is_stable(fragments: Seq<InitFragmentView>, stage: InitFragmentStage)
    ensures
        in_stage(stage_order(fragments), stage) == in_stage(fragments, stage),
{
    lemma_filter_twice(fragments, InitFragmentStage::HarmonyImports, stage);
    lemma_filter_twice(fragments, InitFragmentStage::AsyncHarmonyImports, stage);
}

/// The fragments of one stage hold all of them that are of that stage and
/// none of another.
proof fn lemma_filter_twice(
    fragments: Seq<InitFragmentView>,
    first: InitFragmentStage,
    second: InitFragmentStage,
)
    ensures
        in_stage(in_stage(fragments, first), second) == if first == second {
            in_stage(fragments, first)
        } else {
            Seq::<InitFragmentView>::empty()
        },
    decreases fragments.len(),
{
    reveal(Seq::filter);
    if fragments.len() > 0 {
        lemma_filter_twice(fragments.drop_last(), first, second);
        let rest = in_stage(fragments.drop_last(), first);
        if fragments.last().stage == first {
            assert(rest.push(fragments.last()).drop_last() =~= rest);
        }
    }
}

/// Ordering by stage loses no fragment and adds none.
pub proof fn lemma_stage_order_keeps_all(fragments: Seq<InitFragmentView>)
    ensures
        stage_order(fragments).to_multiset() == fragments.to_multiset(),
    decreases fragments.len(),
{
    reveal(Seq::filter);
    let early = in_stage(fragments, InitFragmentStage::HarmonyImports);
    let late = in_stage(fragments, InitFragmentStage::AsyncHarmonyImports);
    vstd::seq_lib::lemma_multiset_commutative(early, late);
    if fragments.len() > 0 {
        let rest = fragments.drop_last();
        let rest_early = in_stage(rest, InitFragmentStage::HarmonyImports);
        let rest_late = in_stage(rest, InitFragmentStage::AsyncHarmonyImports);
        lemma_stage_order_keeps_all(rest);
        vstd::seq_lib::lemma_multiset_commutative(rest_early, rest_late);
        assert(fragments =~= rest.push(fragments.last()));
        rest.to_multiset_ensures();
        rest_early.to_multiset_ensures();
        rest_late.to_multiset_ensures();
    }
}

} // verus!
