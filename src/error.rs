use git2::Error as GitError;
use std::io::Error as IoError;
use vstd::prelude::*;

verus! {

/// Declares git2::Error, carried through opaquely as the cause of a failure.
#[verifier::external_type_specification]
#[verifier::external_body]
pub struct ExGitError(GitError);

/// Declares std::io::Error, carried through opaquely as the cause of a failure.
#[verifier::external_type_specification]
#[verifier::external_body]
pub struct ExIoError(IoError);

/// The step of a run in which something went wrong.
#[derive(Debug, Clone, Copy, PartialEq, Eq, Structural)]
pub enum Step {
    /// Checking the input paths and creating the target directory.
    Validate,
    /// Reading the status of the source repository's files.
    CleanCheck,
    /// Opening the target repository, or creating it.
    TargetInit,
    /// Listing the local branches to name the temporary branch.
    BranchName,
    /// Splitting the subdirectory's history onto the temporary branch.
    Split,
    /// Pulling the temporary branch into the target repository.
    Pull,
    /// Deleting the temporary branch.
    BranchDelete,
    /// Removing or purging the subdirectory from the source.
    Disposal,
}

/// Why a run stopped.
#[derive(Debug)]
pub enum Error {
    /// The git library failed.
    Git { step: Step, git: GitError },
    /// Reading or writing the file system, or running git, failed.
    Io { step: Step, io: IoError },
    /// A path that must be a directory is missing or is no directory.
    NotADirectory { step: Step, path: String },
    /// The source repository has staged, modified or untracked files.
    Uncommitted,
}

/// The step that an error comes from.
pub open spec fn step_of(e: Error) -> Step {
    match e {
        Error::Git { step, .. } => step,
        Error::Io { step, .. } => step,
        Error::NotADirectory { step, .. } => step,
        Error::Uncommitted => Step::CleanCheck,
    }
}

impl Error {
    /// The step that the error comes from.
    pub fn step(&self) -> (r: Step)
        ensures
            r == step_of(*self),
    {
        match self {
            Error::Git { step, .. } => *step,
            Error::Io { step, .. } => *step,
            Error::NotADirectory { step, .. } => *step,
            Error::Uncommitted => Step::CleanCheck,
        }
    }
}

} // verus!
