//! Failures that no input program can cause: each one means that an earlier
//! phase of the compiler broke a promise.

use vstd::prelude::*;
use vstd::string::StringExecFns;
use crate::dependency::DependencyId;

verus! {

/// The promise that was broken.
#[derive(Clone, Copy, Debug, PartialEq, Eq, Hash, Structural)]
pub enum InvariantViolation {
    /// The edge was never given an id.
    MissingDependencyId,
    /// The edge is not resolved, or the module it resolved to has no record.
    MissingReferencedModule,
    /// A default specifier on an edge that does not import: no syntax
    /// re-exports a default binding under a local name.
    DefaultSpecifierOnReExport,
    /// No variable name was generated for the module's import of the request.
    MissingImportVar,
    /// The module whose code is generated has no record.
    MissingModuleGraphModule,
}

impl InvariantViolation {
    pub open spec fn spec_message(self) -> Seq<char> {
        match self {
            InvariantViolation::MissingDependencyId => "should have dependency id"@,
            InvariantViolation::MissingReferencedModule => "should have ref module"@,
            InvariantViolation::DefaultSpecifierOnReExport => "`export v from ''` is a unrecoverable syntax error"@,
            InvariantViolation::MissingImportVar => "should have import var"@,
            InvariantViolation::MissingModuleGraphModule => "should have mgm"@,
        }
    }

    /// What to tell whoever maintains the compiler.
    pub fn message(self) -> (text: &'static str)
        ensures
            text@ == self.spec_message(),
    {
        match self {
            InvariantViolation::MissingDependencyId => "should have dependency id",
            InvariantViolation::MissingReferencedModule => "should have ref module",
            InvariantViolation::DefaultSpecifierOnReExport => "`export v from ''` is a unrecoverable syntax error",
            InvariantViolation::MissingImportVar => "should have import var",
            InvariantViolation::MissingModuleGraphModule => "should have mgm",
        }
    }
}

/// A broken promise, with the edge at which it was found. Code generation
/// for the module ends with it.
#[derive(Clone, Debug, PartialEq, Eq)]
pub struct InternalError {
    pub violation: InvariantViolation,
    /// The edge's id, if it has one.
    pub id: Option<DependencyId>,
    /// The edge's request.
    pub request: String,
}

pub struct InternalErrorView {
    pub violation: InvariantViolation,
    pub id: Option<DependencyId>,
    pub request: Seq<char>,
}

impl View for InternalError {
    type V = InternalErrorView;

    open spec fn view(&self) -> InternalErrorView {
        InternalErrorView { violation: self.violation, id: self.id, request: self.request@ }
    }
}

impl InternalError {
    pub open spec fn spec_message(&self) -> Seq<char> {
        self.violation.spec_message() + ": "@ + self.request@
    }

    /// The broken promise and the request of the edge, in one line.
    pub fn message(&self) -> (text: String)
        ensures
            text@ == self.spec_message(),
    {
        let mut text = String::new();
        text.append(self.violation.message());
        text.append(": ");
        text.append(self.request.as_str());
        text
    }
}

} // verus!
