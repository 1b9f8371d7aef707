//! The ways a request about a job can be refused.
use vstd::prelude::*;

verus! {

/// Why a job has no result to give.
#[derive(Debug, PartialEq, Eq, Clone)]
pub enum ErrorKind {
    /// The job failed.
    JobFailed { message: String, backtrace: String },
    /// The job is still queued.
    JobQueued,
    /// The job was lost: it did not finish in time.
    JobLost,
    /// The job is still running.
    JobRunning,
}

} // verus!
