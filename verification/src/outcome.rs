//! Outcomes of operations, and the failures that abort them.

use crate::git::GitError;
use crate::git::GitErrorView;
use crate::text::compose;
use crate::text::prefixed;
use crate::transfer::CopyError;
use crate::transfer::CopyErrorView;
use crate::transfer::CopyResult;
use vstd::prelude::*;
use vstd::string::*;

verus! {

/// Outcome of a single operation.
#[derive(Debug, Clone, Copy, PartialEq, Eq, Structural)]
pub enum OperationResult {
    /// A new file, directory or link was created.
    Created,
    /// The target was already present and was left alone.
    Exists,
    /// The source was absent; nothing was done.
    Skipped,
    /// The target was present and was replaced.
    Overwritten,
}

impl OperationResult {
    /// The word for the outcome.
    pub open spec fn word(self) -> Seq<char> {
        match self {
            OperationResult::Created => "created"@,
            OperationResult::Exists => "exists"@,
            OperationResult::Skipped => "skipped"@,
            OperationResult::Overwritten => "overwritten"@,
        }
    }

    /// The word for the outcome, as it is shown.
    pub fn name(&self) -> (out: String)
        ensures
            out@ == self.word(),
    {
        match self {
            OperationResult::Created => String::from_str("created"),
            OperationResult::Exists => String::from_str("exists"),
            OperationResult::Skipped => String::from_str("skipped"),
            OperationResult::Overwritten => String::from_str("overwritten"),
        }
    }
}

/// The outcome of an operation whose copy ended in `result`.
pub open spec fn outcome_of(result: CopyResult) -> OperationResult {
    match result {
        CopyResult::Created { .. } => OperationResult::Created,
        CopyResult::Exists => OperationResult::Exists,
        CopyResult::SourceNotFound => OperationResult::Skipped,
    }
}

/// The outcome of an operation whose copy ended in `result`.
pub fn outcome(result: CopyResult) -> (out: OperationResult)
    ensures
        out == outcome_of(result),
{
    match result {
        CopyResult::Created { .. } => OperationResult::Created,
        CopyResult::Exists => OperationResult::Exists,
        CopyResult::SourceNotFound => OperationResult::Skipped,
    }
}

/// A failure that aborts an operation. Where a failure has an underlying
/// cause, the variant carries its text.
#[derive(Debug)]
pub enum OperationError {
    /// A change on disk failed at `path`.
    IoError { path: String, source: String },
    /// A link from `target` to `source` could not be created.
    SymlinkError { source: String, target: String, error: String },
    /// A copy from `source` to `target` failed.
    CopyError { source: String, target: String, error: String },
    /// A glob pattern could not be read.
    GlobError(String),
    /// Version control failed.
    GitError(GitError),
    /// The transfer engine failed; the text is that of its failure.
    CopyModuleError(String),
}

/// Mathematical form of an [`OperationError`].
pub ghost enum OperationErrorView {
    IoError { path: Seq<char>, source: Seq<char> },
    SymlinkError { source: Seq<char>, target: Seq<char>, error: Seq<char> },
    CopyError { source: Seq<char>, target: Seq<char>, error: Seq<char> },
    GlobError(Seq<char>),
    GitError(GitErrorView),
    CopyModuleError(Seq<char>),
}

impl View for OperationError {
    type V = OperationErrorView;

    open spec fn view(&self) -> OperationErrorView {
        match self {
            OperationError::IoError { path, source } => OperationErrorView::IoError {
                path: path@,
                source: source@,
            },
            OperationError::SymlinkError { source, target, error } => OperationErrorView::SymlinkError {
                source: source@,
                target: target@,
                error: error@,
            },
            OperationError::CopyError { source, target, error } => OperationErrorView::CopyError {
                source: source@,
                target: target@,
                error: error@,
            },
            OperationError::GlobError(message) => OperationErrorView::GlobError(message@),
            OperationError::GitError(error) => OperationErrorView::GitError(error@),
            OperationError::CopyModuleError(message) => OperationErrorView::CopyModuleError(
                message@,
            ),
        }
    }
}

impl OperationErrorView {
    /// The text that describes the failure.
    pub open spec fn message(self) -> Seq<char> {
        match self {
            OperationErrorView::IoError { path, source } => "IO error at "@ + path + ": "@ + source,
            OperationErrorView::SymlinkError {
                source,
                target,
                error,
            } => "Failed to create symlink from "@ + source + " to "@ + target + ": "@ + error,
            OperationErrorView::CopyError { source, target, error } => "Failed to copy from "@
                + source + " to "@ + target + ": "@ + error,
            OperationErrorView::GlobError(message) => "Glob pattern error: "@ + message,
            OperationErrorView::GitError(error) => "Git error: "@ + error.message(),
            OperationErrorView::CopyModuleError(message) => "Copy error: "@ + message,
        }
    }
}

/// The failure of an operation whose transfer failed with `error`.
pub open spec fn transfer_failure(error: CopyErrorView) -> OperationErrorView {
    OperationErrorView::CopyModuleError(error.message())
}

impl OperationError {
    /// The text that describes the failure.
    pub fn message(&self) -> (out: String)
        ensures
            out@ == self@.message(),
    {
        match self {
            OperationError::IoError { path, source } => compose(
                "IO error at ",
                path.as_str(),
                ": ",
                source.as_str(),
            ),
            OperationError::SymlinkError { source, target, error } => {
                let mut text = compose(
                    "Failed to create symlink from ",
                    source.as_str(),
                    " to ",
                    target.as_str(),
                );
                text.append(": ");
                text.append(error.as_str());
                text
            },
            OperationError::CopyError { source, target, error } => {
                let mut text = compose(
                    "Failed to copy from ",
                    source.as_str(),
                    " to ",
                    target.as_str(),
                );
                text.append(": ");
                text.append(error.as_str());
                text
            },
            OperationError::GlobError(message) => prefixed("Glob pattern error: ", message.as_str()),
            OperationError::GitError(error) => {
                let inner = error.message();
                prefixed("Git error: ", inner.as_str())
            },
            OperationError::CopyModuleError(message) => prefixed("Copy error: ", message.as_str()),
        }
    }

    /// The failure of an operation whose transfer failed with `error`.
    pub fn from_copy_error(error: &CopyError) -> (out: OperationError)
        ensures
            out@ == transfer_failure(error@),
    {
        OperationError::CopyModuleError(error.message())
    }
}

} // verus!
