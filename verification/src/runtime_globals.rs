//! The runtime helpers that generated code may call. A helper that a module
//! requires has its implementation injected into the bundle.

use vstd::prelude::*;

verus! {

/// One runtime helper.
#[derive(Clone, Copy, Debug, PartialEq, Eq, Hash, Structural)]
pub enum RuntimeGlobal {
    /// The function that loads a module by its id.
    Require,
    /// The function that copies a module's exports onto another exports
    /// object, for `export *`.
    ExportStar,
}

impl RuntimeGlobal {
    /// The helper's name in generated code. Every helper but `Require` is a
    /// property of the require function.
    pub open spec fn spec_name(self) -> Seq<char> {
        match self {
            RuntimeGlobal::Require => "__webpack_require__"@,
            RuntimeGlobal::ExportStar => "es"@,
        }
    }

    pub fn name(self) -> (text: &'static str)
        ensures
            text@ == self.spec_name(),
    {
        match self {
            RuntimeGlobal::Require => "__webpack_require__",
            RuntimeGlobal::ExportStar => "es",
        }
    }
}

/// The set of runtime helpers that a module requires.
#[derive(Clone, Copy, Debug, PartialEq, Eq, Hash, Structural)]
pub struct RuntimeGlobals {
    require: bool,
    export_star: bool,
}

impl View for RuntimeGlobals {
    type V = Set<RuntimeGlobal>;

    closed spec fn view(&self) -> Set<RuntimeGlobal> {
        Set::new(
            |helper: RuntimeGlobal|
                match helper {
                    RuntimeGlobal::Require => self.require,
                    RuntimeGlobal::ExportStar => self.export_star,
                },
        )
    }
}

impl RuntimeGlobals {
    pub fn new() -> (set: RuntimeGlobals)
        ensures
            set@ == Set::<RuntimeGlobal>::empty(),
    {
        RuntimeGlobals { require: false, export_star: false }
    }

    /// Requires a helper.
    pub fn add(&mut self, helper: RuntimeGlobal)
        ensures
            final(self)@ == old(self)@.insert(helper),
    {
        match helper {
            RuntimeGlobal::Require => {
                self.require = true;
            },
            RuntimeGlobal::ExportStar => {
                self.export_star = true;
            },
        }
    }

    pub fn contains(&self, helper: RuntimeGlobal) -> (found: bool)
        ensures
            found == self@.contains(helper),
    {
        match helper {
            RuntimeGlobal::Require => self.require,
            RuntimeGlobal::ExportStar => self.export_star,
        }
    }

    pub fn is_empty(&self) -> (empty: bool)
        ensures
            empty == (self@ == Set::<RuntimeGlobal>::empty()),
    {
        let empty = !self.require && !self.export_star;
        proof {
            if empty {
                assert(self@ =~= Set::<RuntimeGlobal>::empty());
            } else if self.require {
                assert(self@.contains(RuntimeGlobal::Require));
            } else {
                assert(self@.contains(RuntimeGlobal::ExportStar));
            }
        }
        empty
    }
}

} // verus!
