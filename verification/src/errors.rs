//! The failure taxonomy of a run. The first fatal failure aborts the run
//! and is surfaced to the caller; per-row insert failures are not fatal and
//! never appear here.
use vstd::prelude::*;

verus! {

/// What went wrong.
#[derive(Clone, Copy, PartialEq, Eq, Structural, Debug)]
pub enum FailureKind {
    /// A database could not be reached or queried.
    Connection,
    /// A statement was rejected by the server.
    Query,
    /// Result data could not be interpreted (a table name that is not
    /// valid text).
    Decode,
    /// The target table reports zero columns, so nothing can be safely
    /// inserted into it.
    EmptySchema,
}

/// A fatal failure: its kind, the table being processed when it arose (if
/// any), and the driver's own wording.
#[derive(Debug)]
pub struct MirrorError {
    pub kind: FailureKind,
    pub table: Option<String>,
    pub detail: String,
}

} // verus!
