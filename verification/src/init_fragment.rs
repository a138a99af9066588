//! Init fragments: snippets of generated code that run before a module's
//! body, each assigned to a stage.

use vstd::prelude::*;
use crate::sequences::lemma_filter_take;

verus! {

/// The stages of a module's prologue, in the order in which they run.
#[derive(Clone, Copy, Debug, PartialEq, Eq, Hash, Structural)]
pub enum InitFragmentStage {
    HarmonyImports,
    AsyncHarmonyImports,
}

impl InitFragmentStage {
    /// The stage's place in the prologue: a stage of lower rank runs first.
    pub open spec fn spec_rank(self) -> nat {
        match self {
            InitFragmentStage::HarmonyImports => 0,
            InitFragmentStage::AsyncHarmonyImports => 1,
        }
    }

    pub fn rank(self) -> (rank: u8)
        ensures
            rank == self.spec_rank(),
    {
        match self {
            InitFragmentStage::HarmonyImports => 0,
            InitFragmentStage::AsyncHarmonyImports => 1,
        }
    }
}

/// One snippet of initialisation code.
#[derive(Clone, Debug, PartialEq, Eq)]
pub struct InitFragment {
    pub content: String,
    pub stage: InitFragmentStage,
    /// Carried along for whoever assembles the prologue. The ledger does not
    /// order by it.
    pub ordering_hint: Option<i32>,
}

pub struct InitFragmentView {
    pub content: Seq<char>,
    pub stage: InitFragmentStage,
    pub ordering_hint: Option<i32>,
}

impl View for InitFragment {
    type V = InitFragmentView;

    open spec fn view(&self) -> InitFragmentView {
        InitFragmentView {
            content: self.content@,
            stage: self.stage,
            ordering_hint: self.ordering_hint,
        }
    }
}

impl InitFragment {
    pub fn new(content: String, stage: InitFragmentStage, ordering_hint: Option<i32>) -> (fragment:
        InitFragment)
        ensures
            fragment@ == (InitFragmentView { content: content@, stage, ordering_hint }),
    {
        InitFragment { content, stage, ordering_hint }
    }
}

/// The fragments of a list, each as its view.
pub open spec fn fragment_views(fragments: Seq<InitFragment>) -> Seq<InitFragmentView> {
    fragments.map_values(|fragment: InitFragment| fragment@)
}

/// The test whether a fragment belongs to a stage.
pub open spec fn stage_is(stage: InitFragmentStage) -> spec_fn(InitFragmentView) -> bool {
    |fragment: InitFragmentView| fragment.stage == stage
}

/// The fragments of one stage, in the order of the list.
pub open spec fn in_stage(fragments: Seq<InitFragmentView>, stage: InitFragmentStage) -> Seq<
    InitFragmentView,
> {
    fragments.filter(stage_is(stage))
}

/// The order in which a list of fragments runs: stage by stage, and within a
/// stage as listed.
pub open spec fn stage_order(fragments: Seq<InitFragmentView>) -> Seq<InitFragmentView> {
    in_stage(fragments, InitFragmentStage::HarmonyImports) + in_stage(
        fragments,
        InitFragmentStage::AsyncHarmonyImports,
    )
}

/// The fragments of one module, in the order in which they were appended.
/// Fragments can be appended and, once, drained: nothing else changes the
/// ledger.
#[derive(Debug)]
pub struct InitFragmentLedger {
    fragments: Vec<InitFragment>,
}

impl View for InitFragmentLedger {
    type V = Seq<InitFragmentView>;

    closed spec fn view(&self) -> Seq<InitFragmentView> {
        fragment_views(self.fragments@)
    }
}

impl InitFragmentLedger {
    pub fn new() -> (ledger: InitFragmentLedger)
        ensures
            ledger@ == Seq::<InitFragmentView>::empty(),
    {
        InitFragmentLedger { fragments: Vec::new() }
    }

    /// Appends a fragment behind all that the ledger holds.
    pub fn append(&mut self, fragment: InitFragment)
        ensures
            final(self)@ == old(self)@.push(fragment@),
    {
        self.fragments.push(fragment);
    }

    pub fn len(&self) -> (len: usize)
        ensures
            len == self@.len(),
    {
        self.fragments.len()
    }

    pub fn is_empty(&self) -> (empty: bool)
        ensures
            empty == (self@.len() == 0),
    {
        self.fragments.len() == 0
    }

    /// The fragment appended as the `index`-th, counting from 0.
    pub fn get(&self, index: usize) -> (fragment: Option<&InitFragment>)
        ensures
            match fragment {
                Some(fragment) => index < self@.len() && fragment@ == self@[index as int],
                None => index >= self@.len(),
            },
    {
        if index < self.fragments.len() {
            Some(&self.fragments[index])
        } else {
            None
        }
    }

    /// Ends the ledger and hands out its fragments in the order in which they
    /// run.
    pub fn drain(self) -> (ordered: Vec<InitFragment>)
        ensures
            fragment_views(ordered@) == stage_order(self@),
    {
        let ghost all = self@;
        let mut early: Vec<InitFragment> = Vec::new();
        let mut late: Vec<InitFragment> = Vec::new();
        for fragment in it: self.fragments.into_iter()
            invariant
                it.seq().len() == all.len(),
                fragment_views(it.seq()) == all,
                fragment_views(early@) == in_stage(
                    all.take(it.index() as int),
                    InitFragmentStage::HarmonyImports,
                ),
                fragment_views(late@) == in_stage(
                    all.take(it.index() as int),
                    InitFragmentStage::AsyncHarmonyImports,
                ),
        {
            proof {
                lemma_filter_take(all, stage_is(InitFragmentStage::HarmonyImports), it.index() as int);
                lemma_filter_take(
                    all,
                    stage_is(InitFragmentStage::AsyncHarmonyImports),
                    it.index() as int,
                );
            }
            match fragment.stage {
                InitFragmentStage::HarmonyImports => {
                    early.push(fragment);
                },
                InitFragmentStage::AsyncHarmonyImports => {
                    late.push(fragment);
                },
            }
        }
        proof {
            assert(all.take(all.len() as int) =~= all);
        }
        early.append(&mut late);
        early
    }
}

} // verus!
