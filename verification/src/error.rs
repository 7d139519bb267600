//! The kinds of failure that end an invocation.

use vstd::prelude::*;

verus! {

/// The stage-level kind of a failure. Every failure of the pipeline is of
/// exactly one kind, and the caller is told which.
#[derive(Clone, Copy, Debug, PartialEq, Eq, Structural)]
pub enum ErrorKind {
    /// A specifier, or a specifier and its referrer, is no well-formed locator.
    Resolution,
    /// A module's source could not be fetched.
    Load,
    /// Typed or markup-flavoured source did not transpile.
    Compile,
    /// The requested module kind is not satisfied by the classified kind.
    ModuleKindMismatch,
    /// The designated export is missing or cannot be called.
    Entrypoint,
    /// The input value has no guest representation.
    Marshal,
    /// The returned value has no structured-data representation.
    Unmarshal,
    /// The guest raised, or the value it returned was rejected or never settled.
    Runtime,
}

} // verus!
