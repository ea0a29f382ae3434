//! The manager's own error.

use vstd::prelude::*;

verus! {

/// The classes of errors that the manager answers with.
#[derive(Clone, Copy, PartialEq, Eq, Structural, Debug)]
pub enum ErrorCodes {
    Internal,
}

/// Why the manager refuses to run a compaction job.
#[derive(Clone, Copy, PartialEq, Eq, Structural, Debug)]
pub enum CompactionError {
    FailedToCompact,
}

impl CompactionError {
    pub fn code(&self) -> (code: ErrorCodes)
        ensures
            code == ErrorCodes::Internal,
    {
        match self {
            CompactionError::FailedToCompact => ErrorCodes::Internal,
        }
    }

    /// The text that is shown for the error.
    pub fn message(&self) -> (text: &'static str)
        ensures
            text@ == "Failed to compact"@,
    {
        match self {
            CompactionError::FailedToCompact => "Failed to compact",
        }
    }
}

} // verus!
