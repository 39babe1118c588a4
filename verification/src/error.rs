//! Error taxonomy of the orchestrator.

use vstd::prelude::*;

verus! {

/// Why an operation failed.
///
/// - `Network`: a transient transport or remote-side failure; retryable
///   within a task, fatal to a sync run.
/// - `TaskNotFound`: a signal named a task key the registry does not hold.
/// - `InvalidPayload`: a task-creation payload was structurally malformed.
/// - `Aggregate`: one failure aborted a whole fan-out/fan-in phase.
/// - `Io`: a filesystem collaborator failed; surfaced verbatim.
#[derive(Clone, Copy, PartialEq, Eq, Structural, Debug)]
pub enum DownloadError {
    Network,
    TaskNotFound,
    InvalidPayload,
    Aggregate,
    Io,
}

impl DownloadError {
    /// A short human-readable title for the failure.
    pub fn title(&self) -> (r: &'static str)
        ensures
            self is Network ==> r@ == "network error"@,
            self is TaskNotFound ==> r@ == "task not found"@,
            self is InvalidPayload ==> r@ == "invalid payload"@,
            self is Aggregate ==> r@ == "aggregate failure"@,
            self is Io ==> r@ == "io error"@,
    {
        match self {
            DownloadError::Network => "network error",
            DownloadError::TaskNotFound => "task not found",
            DownloadError::InvalidPayload => "invalid payload",
            DownloadError::Aggregate => "aggregate failure",
            DownloadError::Io => "io error",
        }
    }
}

} // verus!
