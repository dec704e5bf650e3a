//! The two kinds of failure: those of the session as a whole (the capture
//! phase) and those of one entry (its build or its run).

use vstd::prelude::*;

verus! {

/// std's I/O error, carried as the cause of a failed spawn; opaque here.
#[verifier::external_type_specification]
#[verifier::external_body]
pub struct ExIoError(std::io::Error);

/// A failure of the capture phase, which concerns the whole batch.
#[derive(Debug)]
pub enum BatchError {
    /// The build tool could not be started.
    Cargo(std::io::Error),
    /// The build tool's diagnostics announced no subprocess: its output is not
    /// what this library reads, a precondition of the environment that the
    /// caller may treat as unrecoverable.
    NoBuildCommand,
}

/// A failure of one entry; the other entries of the batch are not concerned.
#[derive(Debug)]
pub enum EntryError {
    /// The compiler driver could not be started.
    Rustc(std::io::Error),
    /// The built executable could not be started (for instance because the
    /// last build emitted dependency information only).
    RunFailed(std::io::Error),
}

} // verus!
