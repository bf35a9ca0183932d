//! The error channel: a single-slot record of the last failure.
//!
//! Every fallible boundary operation reports its failure as an explicit
//! [`CApiError`] result. A host that keeps the two-valued status convention
//! stores that error in a [`LastError`] slot, which holds exactly one error
//! at a time and is overwritten by the next failure.

use vstd::prelude::*;

verus! {

/// The recoverable failures of the boundary. Fatal contract violations
/// (a mismatched tag, an out-of-range index, a malformed call-target name)
/// are not errors of this type: the verified operations exclude them by
/// precondition instead of reporting them.
#[derive(PartialEq, Eq, Debug)]
pub enum CApiError {
    /// A required argument was missing at the outer boundary.
    NullPointer,
    /// An import's module name or import name was not valid UTF-8.
    Utf8DecodeError,
    /// The engine rejected the module or its imports.
    InstantiationFailure,
    /// The engine failed during an invocation, or the named export cannot be
    /// called; carries the engine's own diagnostic bytes.
    CallFailure(Vec<u8>),
    /// A non-function or non-memory export was treated as one.
    WrongExportKind,
}

/// The single-slot last-error channel.
pub struct LastError {
    pub last: Option<CApiError>,
}

impl LastError {
    /// A fresh channel, holding no error.
    pub fn new() -> (r: LastError)
        ensures
            r.last is None,
    {
        LastError { last: None }
    }

    /// Record a failure, overwriting whatever the channel held.
    pub fn update(&mut self, e: CApiError)
        ensures
            final(self).last == Some(e),
    {
        self.last = Some(e);
    }

    /// The error of the most recent failure, if any failure has been
    /// recorded.
    pub fn get(&self) -> (r: &Option<CApiError>)
        ensures
            r == &self.last,
    {
        &self.last
    }
}

} // verus!
