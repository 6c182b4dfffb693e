//! Progress reports of a copy, and a counter that several threads share.

use crate::text::optional_text;
use std::sync::Arc;
use std::sync::atomic::AtomicU64;
use std::sync::atomic::Ordering;
use vstd::prelude::*;

verus! {

/// Progress of a copy at one moment.
#[derive(Debug)]
pub struct CopyProgress {
    /// Number of files to copy in all.
    pub files_total: u64,
    /// Number of files copied so far.
    pub files_copied: u64,
    /// The file being copied, if one is named.
    pub current_file: Option<String>,
}

/// Mathematical form of a [`CopyProgress`].
pub ghost struct CopyProgressView {
    pub files_total: u64,
    pub files_copied: u64,
    pub current_file: Option<Seq<char>>,
}

impl View for CopyProgress {
    type V = CopyProgressView;

    open spec fn view(&self) -> CopyProgressView {
        CopyProgressView {
            files_total: self.files_total,
            files_copied: self.files_copied,
            current_file: optional_text(self.current_file),
        }
    }
}

impl Clone for CopyProgress {
    fn clone(&self) -> (out: CopyProgress)
        ensures
            out@ == self@,
    {
        let current_file = match &self.current_file {
            Some(name) => Some(name.clone()),
            None => None,
        };
        CopyProgress { files_total: self.files_total, files_copied: self.files_copied, current_file }
    }
}

impl CopyProgress {
    /// A report of `files_copied` files out of `files_total`.
    pub fn new(files_total: u64, files_copied: u64, current_file: Option<String>) -> (out:
        CopyProgress)
        ensures
            out.files_total == files_total,
            out.files_copied == files_copied,
            out.current_file == current_file,
    {
        CopyProgress { files_total, files_copied, current_file }
    }
}

/// Counters of a copy in progress, shared through `&self` by the threads
/// that copy. They are atomics of `std`, of whose content no contract can
/// speak: of a value read from the tracker only its type is known.
#[derive(Debug)]
pub struct ProgressTracker {
    files_total: AtomicU64,
    files_copied: AtomicU64,
}

impl ProgressTracker {
    /// A shared tracker. Both counters are created with zero.
    pub fn new() -> (out: Arc<ProgressTracker>) {
        Arc::new(
            ProgressTracker { files_total: AtomicU64::new(0), files_copied: AtomicU64::new(0) },
        )
    }

    /// Sets the number of files to copy.
    pub fn set_total(&self, total: u64) {
        self.files_total.store(total, Ordering::SeqCst);
    }

    /// Counts one more file as copied.
    pub fn increment_copied(&self) {
        self.files_copied.fetch_add(1, Ordering::SeqCst);
    }

    /// The number of files to copy, as some thread has last set it.
    pub fn total(&self) -> (out: u64) {
        self.files_total.load(Ordering::SeqCst)
    }

    /// The number of files that the threads have counted as copied so far.
    pub fn copied(&self) -> (out: u64) {
        self.files_copied.load(Ordering::SeqCst)
    }

    /// A report of the counters as they stand, naming `current_file`.
    pub fn snapshot(&self, current_file: Option<String>) -> (out: CopyProgress)
        ensures
            out.current_file == current_file,
    {
        CopyProgress::new(self.total(), self.copied(), current_file)
    }
}

impl Default for ProgressTracker {
    fn default() -> (out: ProgressTracker) {
        ProgressTracker { files_total: AtomicU64::new(0), files_copied: AtomicU64::new(0) }
    }
}

} // verus!
