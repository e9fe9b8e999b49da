//! The ways in which an operation ends without success.

use vstd::prelude::*;
use vstd::string::StringExecFns;

verus! {

/// Why an operation was given up. Every error is final: nothing is retried
/// after one.
#[derive(Clone, Copy, Debug, PartialEq, Eq, Structural)]
pub enum ExperimentAppError {
    /// Neither the command line nor the environment names a context.
    NoContext,
    /// The directories above a reserved file could not be created.
    AncestorCreation,
    /// A reserved file could not be created.
    FileCreation,
    /// The context lacks a readable `name` or `start-time` record.
    InvalidContext,
    /// Neither the command line nor the environment names a storage root.
    NoStorageRoot,
    /// The staging area under the storage root could not be created.
    InvalidStorageRoot,
    /// The context directory or one of its two records could not be written.
    Io,
    /// The rename that publishes a context failed.
    Transfer,
    /// The random source gave no suffix.
    Entropy,
    /// An event arrived that does not answer the action that was pending.
    UnexpectedEvent,
}

impl ExperimentAppError {
    /// The one-line description of the error, as a sequence of characters.
    pub open spec fn spec_message(self) -> Seq<char> {
        match self {
            ExperimentAppError::NoContext =>
                "No experiment context specified by --context or EXPERIMENT_PATH."@,
            ExperimentAppError::AncestorCreation => "Failed to create ancestor directories."@,
            ExperimentAppError::FileCreation => "Failed to create file."@,
            ExperimentAppError::InvalidContext => "Invalid experimental context."@,
            ExperimentAppError::NoStorageRoot =>
                "No storage root specified by --storage-root or EXPERIMENT_STORAGE_ROOT."@,
            ExperimentAppError::InvalidStorageRoot => "Invalid experimental storage repository."@,
            ExperimentAppError::Io => "Failed to write the experiment context."@,
            ExperimentAppError::Transfer => "Failed to move the experiment into the repository."@,
            ExperimentAppError::Entropy => "Failed to draw a random suffix."@,
            ExperimentAppError::UnexpectedEvent => "Unexpected answer to a pending action."@,
        }
    }

    /// The one-line description of the error.
    pub fn message(&self) -> (text: String)
        ensures
            text@ == self.spec_message(),
    {
        match self {
            ExperimentAppError::NoContext => String::from_str(
                "No experiment context specified by --context or EXPERIMENT_PATH.",
            ),
            ExperimentAppError::AncestorCreation => String::from_str(
                "Failed to create ancestor directories.",
            ),
            ExperimentAppError::FileCreation => String::from_str("Failed to create file."),
            ExperimentAppError::InvalidContext => String::from_str(
                "Invalid experimental context.",
            ),
            ExperimentAppError::NoStorageRoot => String::from_str(
                "No storage root specified by --storage-root or EXPERIMENT_STORAGE_ROOT.",
            ),
            ExperimentAppError::InvalidStorageRoot => String::from_str(
                "Invalid experimental storage repository.",
            ),
            ExperimentAppError::Io => String::from_str("Failed to write the experiment context."),
            ExperimentAppError::Transfer => String::from_str(
                "Failed to move the experiment into the repository.",
            ),
            ExperimentAppError::Entropy => String::from_str("Failed to draw a random suffix."),
            ExperimentAppError::UnexpectedEvent => String::from_str(
                "Unexpected answer to a pending action.",
            ),
        }
    }
}

} // verus!
