//! The file transfer engine: counting, enumeration, and the work that a
//! copy of a file or of a directory tree consists of.
//!
//! Every function here decides; none acts. A function takes what was seen
//! of the paths involved and returns the outcome to expect together with
//! the work to carry out, in order.

use crate::observe::PathStatus;
use crate::progress::CopyProgress;
use crate::progress::CopyProgressView;
use crate::text::compose;
use crate::text::is_among;
use crate::text::optional_text;
use crate::text::texts;
use crate::trusted::join;
use crate::trusted::joined;
use crate::trusted::parent;
use crate::trusted::parent_of;
use crate::trusted::strip_prefix;
use crate::trusted::without_prefix;
use vstd::prelude::*;
use vstd::string::*;

verus! {

/// What kind of thing a walk found.
#[derive(Debug, Clone, Copy, PartialEq, Eq, Structural)]
pub enum EntryKind {
    /// A regular file.
    File,
    /// A directory.
    Directory,
    /// A symbolic link, not followed.
    Symlink,
    /// Anything else.
    Other,
}

/// One item of a recursive walk of a directory.
#[derive(Debug)]
pub enum Walked {
    /// Something was found at `path`.
    Entry { path: String, kind: EntryKind },
    /// The walk failed at some point; the text says how.
    Failed { message: String },
}

/// Mathematical form of a [`Walked`].
pub ghost enum WalkedView {
    Entry { path: Seq<char>, kind: EntryKind },
    Failed { message: Seq<char> },
}

impl View for Walked {
    type V = WalkedView;

    open spec fn view(&self) -> WalkedView {
        match self {
            Walked::Entry { path, kind } => WalkedView::Entry { path: path@, kind: *kind },
            Walked::Failed { message } => WalkedView::Failed { message: message@ },
        }
    }
}

/// The views of the items of a walk.
pub open spec fn walk_of(walked: Seq<Walked>) -> Seq<WalkedView> {
    walked.map_values(|item: Walked| item@)
}

/// An item of a walk stands for a file to transfer when it was found, is
/// not the root of the walk, and is no directory.
pub open spec fn is_transferable(root: Seq<char>, item: WalkedView) -> bool {
    match item {
        WalkedView::Entry { path, kind } => path != root && kind != EntryKind::Directory,
        WalkedView::Failed { .. } => false,
    }
}

/// The number of files that a walk of `root` found.
pub open spec fn files_in(root: Seq<char>, walked: Seq<WalkedView>) -> nat {
    walked.filter(|item: WalkedView| is_transferable(root, item)).len()
}

/// The number of files at a path in `status`, given the walk of it:
/// nothing for a missing path or a link, one for a file, and for a
/// directory what the walk found.
pub open spec fn file_count_of(root: Seq<char>, status: PathStatus, walked: Seq<WalkedView>) -> nat {
    if !status.exists || status.is_symlink {
        0
    } else if status.is_file {
        1
    } else if !status.is_dir {
        0
    } else {
        files_in(root, walked)
    }
}

/// The running counts to report while `count` files are counted in a
/// directory: every full hundred, then the total.
pub open spec fn scan_reports(count: nat) -> Seq<u64> {
    Seq::new(count / 100, |i: int| ((i + 1) * 100) as u64).push(count as u64)
}

/// The counts to report while the files at a path are counted.
pub open spec fn count_reports(root: Seq<char>, status: PathStatus, walked: Seq<WalkedView>) -> Seq<u64> {
    if !status.exists || status.is_symlink {
        Seq::empty()
    } else if status.is_file {
        seq![1u64]
    } else if !status.is_dir {
        Seq::empty()
    } else {
        scan_reports(files_in(root, walked))
    }
}

/// A count of files together with the running counts to report on the way.
#[derive(Debug)]
pub struct Count {
    /// The number of files.
    pub total: u64,
    /// The counts to hand to a progress callback, in order.
    pub reports: Vec<u64>,
}

fn transferable(root: &String, item: &Walked) -> (out: bool)
    ensures
        out == is_transferable(root@, item@),
{
    match item {
        Walked::Entry { path, kind } => {
            let is_directory = match kind {
                EntryKind::Directory => true,
                _ => false,
            };
            !is_directory && !(*path == *root)
        },
        Walked::Failed { .. } => false,
    }
}

/// Counts the files at `path`, reporting on the way: a file counts as one
/// and is reported once; in a directory every full hundred is reported,
/// and the total at the end.
pub fn count_files_with_progress(path: &str, status: PathStatus, walked: &Vec<Walked>) -> (out: Count)
    ensures
        out.total == file_count_of(path@, status, walk_of(walked@)),
        out.reports@ == count_reports(path@, status, walk_of(walked@)),
{
    let mut reports: Vec<u64> = Vec::new();
    if !status.exists || status.is_symlink {
        return Count { total: 0, reports };
    }
    if status.is_file {
        reports.push(1);
        assert(reports@ =~= seq![1u64]);
        return Count { total: 1, reports };
    }
    if !status.is_dir {
        return Count { total: 0, reports };
    }
    let root = path.to_owned();
    let ghost all = walk_of(walked@);
    let ghost wanted = |item: WalkedView| is_transferable(root@, item);
    let mut total: u64 = 0;
    let mut i: usize = 0;
    proof {
        assert(all.take(0) =~= Seq::<WalkedView>::empty());
        assert(reports@ =~= Seq::new(0nat, |i: int| ((i + 1) * 100) as u64));
    }
    while i < walked.len()
        invariant
            i <= walked.len(),
            all == walk_of(walked@),
            root@ == path@,
            wanted == (|item: WalkedView| is_transferable(root@, item)),
            total == all.take(i as int).filter(wanted).len(),
            total <= i,
            reports@ == Seq::new((total as nat) / 100, |i: int| ((i + 1) * 100) as u64),
        decreases walked.len() - i,
    {
        proof {
            all.lemma_take_succ_push(i as int);
            all.take(i as int).lemma_filter_push(all[i as int], wanted);
        }
        if transferable(&root, &walked[i]) {
            total += 1;
            if total % 100 == 0 {
                let ghost before = reports@;
                reports.push(total);
                proof {
                    assert((total as nat) / 100 == (total - 1) as nat / 100 + 1);
                    assert(reports@ =~= Seq::new(
                        (total as nat) / 100,
                        |i: int| ((i + 1) * 100) as u64,
                    ));
                }
            } else {
                proof {
                    assert((total as nat) / 100 == (total - 1) as nat / 100);
                }
            }
        }
        i += 1;
    }
    proof {
        assert(all.take(i as int) =~= all);
    }
    reports.push(total);
    Count { total, reports }
}

/// Counts the files at `path`: none where nothing exists or the path is a
/// link, one for a file, and for a directory every entry of its walk that
/// is no directory, the root left out.
pub fn count_files(path: &str, status: PathStatus, walked: &Vec<Walked>) -> (out: u64)
    ensures
        out == file_count_of(path@, status, walk_of(walked@)),
{
    count_files_with_progress(path, status, walked).total
}

/// Outcome of a copy.
#[derive(Debug, Clone, Copy, PartialEq, Eq, Structural)]
pub enum CopyResult {
    /// Files were copied.
    Created {
        /// Number of files copied.
        files_copied: u64,
    },
    /// The target was already present; nothing was done.
    Exists,
    /// The source is absent; nothing was done.
    SourceNotFound,
}

/// A failure of a copy. Each variant carries the text of the underlying
/// failure.
#[derive(Debug)]
pub enum CopyError {
    /// A directory could not be read.
    ReadDirError { path: String, io_error: String },
    /// A directory could not be created.
    CreateDirError { path: String, io_error: String },
    /// A file could not be copied.
    FileCopyError { source_path: String, target_path: String, io_error: String },
    /// The target of a link could not be read.
    ReadLinkError { path: String, io_error: String },
    /// A link could not be created.
    CreateSymlinkError { path: String, io_error: String },
    /// The metadata of a file could not be read.
    MetadataError { path: String, io_error: String },
    /// The walk of a directory failed.
    EnumerationError { path: String, message: String },
}

/// Mathematical form of a [`CopyError`].
pub ghost enum CopyErrorView {
    ReadDirError { path: Seq<char>, io_error: Seq<char> },
    CreateDirError { path: Seq<char>, io_error: Seq<char> },
    FileCopyError { source_path: Seq<char>, target_path: Seq<char>, io_error: Seq<char> },
    ReadLinkError { path: Seq<char>, io_error: Seq<char> },
    CreateSymlinkError { path: Seq<char>, io_error: Seq<char> },
    MetadataError { path: Seq<char>, io_error: Seq<char> },
    EnumerationError { path: Seq<char>, message: Seq<char> },
}

impl View for CopyError {
    type V = CopyErrorView;

    open spec fn view(&self) -> CopyErrorView {
        match self {
            CopyError::ReadDirError { path, io_error } => CopyErrorView::ReadDirError {
                path: path@,
                io_error: io_error@,
            },
            CopyError::CreateDirError { path, io_error } => CopyErrorView::CreateDirError {
                path: path@,
                io_error: io_error@,
            },
            CopyError::FileCopyError {
                source_path,
                target_path,
                io_error,
            } => CopyErrorView::FileCopyError {
                source_path: source_path@,
                target_path: target_path@,
                io_error: io_error@,
            },
            CopyError::ReadLinkError { path, io_error } => CopyErrorView::ReadLinkError {
                path: path@,
                io_error: io_error@,
            },
            CopyError::CreateSymlinkError { path, io_error } => CopyErrorView::CreateSymlinkError {
                path: path@,
                io_error: io_error@,
            },
            CopyError::MetadataError { path, io_error } => CopyErrorView::MetadataError {
                path: path@,
                io_error: io_error@,
            },
            CopyError::EnumerationError { path, message } => CopyErrorView::EnumerationError {
                path: path@,
                message: message@,
            },
        }
    }
}

impl CopyErrorView {
    /// The text that describes the failure.
    pub open spec fn message(self) -> Seq<char> {
        match self {
            CopyErrorView::ReadDirError { path, io_error } => "Failed to read directory "@ + path
                + ": "@ + io_error,
            CopyErrorView::CreateDirError { path, io_error } => "Failed to create directory "@
                + path + ": "@ + io_error,
            CopyErrorView::FileCopyError { source_path, target_path, io_error } => "Failed to copy "@
                + source_path + " to "@ + target_path + ": "@ + io_error,
            CopyErrorView::ReadLinkError { path, io_error } => "Failed to read symlink "@ + path
                + ": "@ + io_error,
            CopyErrorView::CreateSymlinkError { path, io_error } => "Failed to create symlink "@
                + path + ": "@ + io_error,
            CopyErrorView::MetadataError { path, io_error } => "Failed to get metadata for "@
                + path + ": "@ + io_error,
            CopyErrorView::EnumerationError { path, message } => "Failed to enumerate directory "@
                + path + ": "@ + message,
        }
    }
}

impl CopyError {
    /// The text that describes the failure.
    pub fn message(&self) -> (out: String)
        ensures
            out@ == self@.message(),
    {
        match self {
            CopyError::ReadDirError { path, io_error } => compose(
                "Failed to read directory ",
                path.as_str(),
                ": ",
                io_error.as_str(),
            ),
            CopyError::CreateDirError { path, io_error } => compose(
                "Failed to create directory ",
                path.as_str(),
                ": ",
                io_error.as_str(),
            ),
            CopyError::FileCopyError { source_path, target_path, io_error } => {
                let mut text = compose(
                    "Failed to copy ",
                    source_path.as_str(),
                    " to ",
                    target_path.as_str(),
                );
                text.append(": ");
                text.append(io_error.as_str());
                text
            },
            CopyError::ReadLinkError { path, io_error } => compose(
                "Failed to read symlink ",
                path.as_str(),
                ": ",
                io_error.as_str(),
            ),
            CopyError::CreateSymlinkError { path, io_error } => compose(
                "Failed to create symlink ",
                path.as_str(),
                ": ",
                io_error.as_str(),
            ),
            CopyError::MetadataError { path, io_error } => compose(
                "Failed to get metadata for ",
                path.as_str(),
                ": ",
                io_error.as_str(),
            ),
            CopyError::EnumerationError { path, message } => compose(
                "Failed to enumerate directory ",
                path.as_str(),
                ": ",
                message.as_str(),
            ),
        }
    }
}

/// A file or link to transfer in the course of a directory copy.
#[derive(Debug)]
pub struct FileEntry {
    /// Where it is.
    pub source: String,
    /// Where it goes.
    pub target: String,
    /// Whether it is a link, to be recreated as one.
    pub is_symlink: bool,
}

/// Mathematical form of a [`FileEntry`].
pub ghost struct FileEntryView {
    pub source: Seq<char>,
    pub target: Seq<char>,
    pub is_symlink: bool,
}

impl View for FileEntry {
    type V = FileEntryView;

    open spec fn view(&self) -> FileEntryView {
        FileEntryView { source: self.source@, target: self.target@, is_symlink: self.is_symlink }
    }
}

/// The views of a sequence of entries.
pub open spec fn entries_of(entries: Seq<FileEntry>) -> Seq<FileEntryView> {
    entries.map_values(|entry: FileEntry| entry@)
}

/// What one item of a walk of `source` adds to the files to transfer,
/// `placed` being the place of the item under the target where the item
/// lies under `source`: nothing for the root and for directories, a
/// failure for a failed item or for an item that has no place, and
/// otherwise the entry that goes to that place.
pub open spec fn item_entry(source: Seq<char>, item: WalkedView, placed: Option<Seq<char>>) -> Result<
    Option<FileEntryView>,
    CopyErrorView,
> {
    match item {
        WalkedView::Failed { message } => Err(
            CopyErrorView::EnumerationError { path: source, message },
        ),
        WalkedView::Entry { path, kind } => if path == source || kind == EntryKind::Directory {
            Ok(None)
        } else {
            match placed {
                None => Err(
                    CopyErrorView::EnumerationError {
                        path,
                        message: "Failed to strip prefix"@,
                    },
                ),
                Some(place) => Ok(
                    Some(
                        FileEntryView {
                            source: path,
                            target: place,
                            is_symlink: kind == EntryKind::Symlink,
                        },
                    ),
                ),
            }
        },
    }
}

/// The place under `target` of an item of a walk of `source`: the target
/// joined with the path of the item relative to `source`, where the item
/// lies under `source`.
pub open spec fn place_of(source: Seq<char>, target: Seq<char>, item: WalkedView) -> Option<
    Seq<char>,
> {
    match item {
        WalkedView::Entry { path, .. } => match without_prefix(path, source) {
            Some(relative) => Some(joined(target, relative)),
            None => None,
        },
        WalkedView::Failed { .. } => None,
    }
}

/// What one item of a walk of `source` adds to the files to transfer to
/// `target`: nothing for the root and for directories, a failure for a
/// failed item or for a path that does not lie under `source`, and
/// otherwise the entry that keeps the item's place relative to the root.
pub open spec fn enumeration_step(source: Seq<char>, target: Seq<char>, item: WalkedView) -> Result<
    Option<FileEntryView>,
    CopyErrorView,
> {
    item_entry(source, item, place_of(source, target, item))
}

/// The files to transfer from `source` to `target`, in the order of the
/// walk, or the first failure met in that order.
pub open spec fn enumerated(source: Seq<char>, target: Seq<char>, walked: Seq<WalkedView>) -> Result<
    Seq<FileEntryView>,
    CopyErrorView,
>
    decreases walked.len(),
{
    if walked.len() == 0 {
        Ok(Seq::empty())
    } else {
        match enumerated(source, target, walked.drop_last()) {
            Err(error) => Err(error),
            Ok(entries) => match enumeration_step(source, target, walked.last()) {
                Err(error) => Err(error),
                Ok(None) => Ok(entries),
                Ok(Some(entry)) => Ok(entries.push(entry)),
            },
        }
    }
}

proof fn lemma_enumeration_stays_failed(
    source: Seq<char>,
    target: Seq<char>,
    walked: Seq<WalkedView>,
    k: int,
)
    requires
        0 <= k <= walked.len(),
        enumerated(source, target, walked.take(k)) is Err,
    ensures
        enumerated(source, target, walked) == enumerated(source, target, walked.take(k)),
    decreases walked.len() - k,
{
    if k < walked.len() {
        assert(walked.take(k + 1).drop_last() =~= walked.take(k));
        lemma_enumeration_stays_failed(source, target, walked, k + 1);
    } else {
        assert(walked.take(k) =~= walked);
    }
}

/// The view of an entry that may be missing, or of the failure in its
/// place.
pub open spec fn step_of(step: Result<Option<FileEntry>, CopyError>) -> Result<
    Option<FileEntryView>,
    CopyErrorView,
> {
    match step {
        Ok(Some(entry)) => Ok(Some(entry@)),
        Ok(None) => Ok(None),
        Err(error) => Err(error@),
    }
}

/// Decides what one item of a walk of `source` adds to the files to
/// transfer, `placed` being the place of the item under the target.
pub fn enumerate_item(source: &str, item: &Walked, placed: Option<String>) -> (out: Result<
    Option<FileEntry>,
    CopyError,
>)
    ensures
        step_of(out) == item_entry(source@, item@, optional_text(placed)),
{
    match item {
        Walked::Failed { message } => Err(
            CopyError::EnumerationError { path: source.to_owned(), message: message.clone() },
        ),
        Walked::Entry { path, kind } => {
            let is_directory = match kind {
                EntryKind::Directory => true,
                _ => false,
            };
            if *path == source.to_owned() || is_directory {
                return Ok(None);
            }
            match placed {
                None => Err(
                    CopyError::EnumerationError {
                        path: path.clone(),
                        message: String::from_str("Failed to strip prefix"),
                    },
                ),
                Some(place) => {
                    let is_symlink = match kind {
                        EntryKind::Symlink => true,
                        _ => false,
                    };
                    Ok(Some(FileEntry { source: path.clone(), target: place, is_symlink }))
                },
            }
        },
    }
}

fn place(source: &str, target: &str, item: &Walked) -> (out: Option<String>)
    ensures
        is_transferable(source@, item@) ==> optional_text(out) == place_of(
            source@,
            target@,
            item@,
        ),
{
    match item {
        Walked::Entry { path, kind } => {
            match strip_prefix(path.as_str(), source) {
                Some(relative) => Some(join(target, relative.as_str())),
                None => None,
            }
        },
        Walked::Failed { .. } => None,
    }
}

/// Lists the files and links to transfer from `source` to `target`, given
/// the walk of `source`. Directories and the root are left out; the first
/// failed item of the walk, or the first path outside `source`, ends the
/// listing with an error.
pub fn enumerate_directory(source: &str, target: &str, walked: &Vec<Walked>) -> (out: Result<
    Vec<FileEntry>,
    CopyError,
>)
    ensures
        match out {
            Ok(entries) => enumerated(source@, target@, walk_of(walked@)) == Ok::<
                Seq<FileEntryView>,
                CopyErrorView,
            >(entries_of(entries@)),
            Err(error) => enumerated(source@, target@, walk_of(walked@)) == Err::<
                Seq<FileEntryView>,
                CopyErrorView,
            >(error@),
        },
{
    let root = source.to_owned();
    let ghost all = walk_of(walked@);
    let mut entries: Vec<FileEntry> = Vec::new();
    let mut i: usize = 0;
    proof {
        assert(all.take(0) =~= Seq::<WalkedView>::empty());
        assert(entries_of(entries@) =~= Seq::<FileEntryView>::empty());
    }
    while i < walked.len()
        invariant
            i <= walked.len(),
            all == walk_of(walked@),
            root@ == source@,
            enumerated(source@, target@, all.take(i as int)) == Ok::<
                Seq<FileEntryView>,
                CopyErrorView,
            >(entries_of(entries@)),
        decreases walked.len() - i,
    {
        proof {
            assert(all.take(i + 1).drop_last() =~= all.take(i as int));
            assert(all.take(i + 1).last() == walked@[i as int]@);
        }
        let placed = if transferable(&root, &walked[i]) {
            place(source, target, &walked[i])
        } else {
            None
        };
        match enumerate_item(source, &walked[i], placed) {
            Err(error) => {
                proof {
                    lemma_enumeration_stays_failed(source@, target@, all, i + 1);
                }
                return Err(error);
            },
            Ok(None) => {},
            Ok(Some(entry)) => {
                let ghost before = entries_of(entries@);
                entries.push(entry);
                proof {
                    assert(entries_of(entries@) =~= before.push(entry@));
                }
            },
        }
        i += 1;
    }
    proof {
        assert(all.take(i as int) =~= all);
    }
    Ok(entries)
}

/// One change to make on disk in the course of a copy.
#[derive(Debug)]
pub enum Action {
    /// Create the directory at `path` with every missing ancestor.
    CreateDirAll { path: String },
    /// Copy the content of the file at `source` to `target`, as a
    /// copy-on-write clone where that can be had and byte for byte where not.
    CopyFile { source: String, target: String },
    /// Read where the link at `source` points and create at `target` a
    /// link that points to the same place, as it was written.
    CopySymlink { source: String, target: String },
}

/// Mathematical form of an [`Action`].
pub ghost enum ActionView {
    CreateDirAll { path: Seq<char> },
    CopyFile { source: Seq<char>, target: Seq<char> },
    CopySymlink { source: Seq<char>, target: Seq<char> },
}

impl View for Action {
    type V = ActionView;

    open spec fn view(&self) -> ActionView {
        match self {
            Action::CreateDirAll { path } => ActionView::CreateDirAll { path: path@ },
            Action::CopyFile { source, target } => ActionView::CopyFile {
                source: source@,
                target: target@,
            },
            Action::CopySymlink { source, target } => ActionView::CopySymlink {
                source: source@,
                target: target@,
            },
        }
    }
}

/// The views of a sequence of actions.
pub open spec fn actions_of(actions: Seq<Action>) -> Seq<ActionView> {
    actions.map_values(|action: Action| action@)
}

/// The views of a sequence of progress reports.
pub open spec fn reports_of(reports: Seq<CopyProgress>) -> Seq<CopyProgressView> {
    reports.map_values(|report: CopyProgress| report@)
}

/// The error that stands for a failed action, `io_error` being the text
/// of the underlying failure. A failed link copy is reported as a failure
/// to create the link.
pub open spec fn failure_of(action: ActionView, io_error: Seq<char>) -> CopyErrorView {
    match action {
        ActionView::CreateDirAll { path } => CopyErrorView::CreateDirError { path, io_error },
        ActionView::CopyFile { source, target } => CopyErrorView::FileCopyError {
            source_path: source,
            target_path: target,
            io_error,
        },
        ActionView::CopySymlink { source, target } => CopyErrorView::CreateSymlinkError {
            path: target,
            io_error,
        },
    }
}

/// The error to raise when `action` has failed with `io_error`.
pub fn failure(action: &Action, io_error: String) -> (out: CopyError)
    ensures
        out@ == failure_of(action@, io_error@),
{
    match action {
        Action::CreateDirAll { path } => CopyError::CreateDirError { path: path.clone(), io_error },
        Action::CopyFile { source, target } => CopyError::FileCopyError {
            source_path: source.clone(),
            target_path: target.clone(),
            io_error,
        },
        Action::CopySymlink { source, target } => CopyError::CreateSymlinkError {
            path: target.clone(),
            io_error,
        },
    }
}

/// The outcome that a copy will have if everything goes well, and the work
/// that leads there: reports to make first, actions to carry out one after
/// the other, entries to transfer in any order once those actions are
/// done, and reports to make at the end.
#[derive(Debug)]
pub struct Transfer {
    /// The outcome, provided that no action fails.
    pub result: CopyResult,
    /// Progress to report before anything is changed.
    pub announce: Vec<CopyProgress>,
    /// Actions to carry out in order, each before the next.
    pub prepare: Vec<Action>,
    /// Entries to transfer after `prepare`, in any order or all at once.
    pub entries: Vec<FileEntry>,
    /// Progress to report once every entry is transferred.
    pub conclude: Vec<CopyProgress>,
}

/// Mathematical form of a [`Transfer`].
pub ghost struct TransferView {
    pub result: CopyResult,
    pub announce: Seq<CopyProgressView>,
    pub prepare: Seq<ActionView>,
    pub entries: Seq<FileEntryView>,
    pub conclude: Seq<CopyProgressView>,
}

impl View for Transfer {
    type V = TransferView;

    open spec fn view(&self) -> TransferView {
        TransferView {
            result: self.result,
            announce: reports_of(self.announce@),
            prepare: actions_of(self.prepare@),
            entries: entries_of(self.entries@),
            conclude: reports_of(self.conclude@),
        }
    }
}

/// A transfer that changes nothing and reports nothing.
pub open spec fn idle(result: CopyResult) -> TransferView {
    TransferView {
        result,
        announce: Seq::empty(),
        prepare: Seq::empty(),
        entries: Seq::empty(),
        conclude: Seq::empty(),
    }
}

/// A report on the single file `source`, of which `copied` are copied.
pub open spec fn file_report(source: Seq<char>, copied: u64) -> CopyProgressView {
    CopyProgressView { files_total: 1, files_copied: copied, current_file: Some(source) }
}

/// A report on a directory of `total` files, of which `copied` are copied.
pub open spec fn batch_report(total: u64, copied: u64) -> CopyProgressView {
    CopyProgressView { files_total: total, files_copied: copied, current_file: None }
}

/// The creation of the directory `parent`, where there is one.
pub open spec fn creation_of(parent: Option<Seq<char>>) -> Seq<ActionView> {
    match parent {
        Some(dir) => seq![ActionView::CreateDirAll { path: dir }],
        None => Seq::empty(),
    }
}

/// The creation of the parent of `target`, where it has one.
pub open spec fn parent_creation(target: Seq<char>) -> Seq<ActionView> {
    creation_of(parent_of(target))
}

/// The copy of one file to a target whose parent is `parent`: report the
/// start, make sure the parent is there, copy, report the end.
pub open spec fn file_transfer_under(
    source: Seq<char>,
    target: Seq<char>,
    parent: Option<Seq<char>>,
) -> TransferView {
    TransferView {
        result: CopyResult::Created { files_copied: 1 },
        announce: seq![file_report(source, 0)],
        prepare: creation_of(parent).push(ActionView::CopyFile { source, target }),
        entries: Seq::empty(),
        conclude: seq![file_report(source, 1)],
    }
}

/// The copy of one file: report the start, make sure the parent of the
/// target is there, copy, report the end.
pub open spec fn file_transfer(source: Seq<char>, target: Seq<char>) -> TransferView {
    file_transfer_under(source, target, parent_of(target))
}

/// What copying a file comes to: nothing where the source is absent,
/// nothing where the target is present, and the copy otherwise.
pub open spec fn copy_file_plan(
    source: Seq<char>,
    target: Seq<char>,
    source_exists: bool,
    target_exists: bool,
) -> TransferView {
    if !source_exists {
        idle(CopyResult::SourceNotFound)
    } else if target_exists {
        idle(CopyResult::Exists)
    } else {
        file_transfer(source, target)
    }
}

/// What overwriting a file comes to: nothing where the source is absent,
/// and the copy otherwise, whatever is at the target.
pub open spec fn overwrite_file_plan(source: Seq<char>, target: Seq<char>, source_exists: bool) -> TransferView {
    if !source_exists {
        idle(CopyResult::SourceNotFound)
    } else {
        file_transfer(source, target)
    }
}

/// The directories among `parents`, each once, at the place of its
/// first occurrence.
pub open spec fn distinct(parents: Seq<Option<Seq<char>>>) -> Seq<Seq<char>>
    decreases parents.len(),
{
    if parents.len() == 0 {
        Seq::empty()
    } else {
        let before = distinct(parents.drop_last());
        match parents.last() {
            Some(dir) => if before.contains(dir) {
                before
            } else {
                before.push(dir)
            },
            None => before,
        }
    }
}

/// The parent of the target of each of `entries`.
pub open spec fn parents_of(entries: Seq<FileEntryView>) -> Seq<Option<Seq<char>>> {
    entries.map_values(|entry: FileEntryView| parent_of(entry.target))
}

/// The directories that hold the targets of `entries`, each once, in the
/// order in which the entries first need them.
pub open spec fn parent_directories(entries: Seq<FileEntryView>) -> Seq<Seq<char>> {
    distinct(parents_of(entries))
}

/// The creation of each of `directories`.
pub open spec fn creations(directories: Seq<Seq<char>>) -> Seq<ActionView> {
    directories.map_values(|dir: Seq<char>| ActionView::CreateDirAll { path: dir })
}

/// The copy of a directory whose files are `entries`: an empty target
/// where there are none; otherwise every directory that will hold a file,
/// then the files, with a report before and after.
pub open spec fn directory_transfer(target: Seq<char>, entries: Seq<FileEntryView>) -> TransferView {
    directory_transfer_with(target, entries, parent_directories(entries))
}

/// The copy of a directory whose files are `entries` and go into
/// `directories`.
pub open spec fn directory_transfer_with(
    target: Seq<char>,
    entries: Seq<FileEntryView>,
    directories: Seq<Seq<char>>,
) -> TransferView {
    if entries.len() == 0 {
        TransferView {
            result: CopyResult::Created { files_copied: 0 },
            announce: Seq::empty(),
            prepare: seq![ActionView::CreateDirAll { path: target }],
            entries: Seq::empty(),
            conclude: Seq::empty(),
        }
    } else {
        TransferView {
            result: CopyResult::Created { files_copied: entries.len() as u64 },
            announce: seq![batch_report(entries.len() as u64, 0)],
            prepare: creations(directories),
            entries,
            conclude: seq![batch_report(entries.len() as u64, entries.len() as u64)],
        }
    }
}

/// What copying a directory comes to: nothing where the source is absent,
/// nothing where the target is present, the failure of the enumeration
/// where it fails, and the transfer of what was enumerated otherwise.
pub open spec fn copy_directory_plan(
    source: Seq<char>,
    target: Seq<char>,
    source_exists: bool,
    target_exists: bool,
    walked: Seq<WalkedView>,
) -> Result<TransferView, CopyErrorView> {
    if !source_exists {
        Ok(idle(CopyResult::SourceNotFound))
    } else if target_exists {
        Ok(idle(CopyResult::Exists))
    } else {
        match enumerated(source, target, walked) {
            Err(error) => Err(error),
            Ok(entries) => Ok(directory_transfer(target, entries)),
        }
    }
}

fn nothing(result: CopyResult) -> (out: Transfer)
    ensures
        out@ == idle(result),
{
    let out = Transfer {
        result,
        announce: Vec::new(),
        prepare: Vec::new(),
        entries: Vec::new(),
        conclude: Vec::new(),
    };
    proof {
        assert(out@.announce =~= Seq::empty());
        assert(out@.prepare =~= Seq::empty());
        assert(out@.entries =~= Seq::empty());
        assert(out@.conclude =~= Seq::empty());
    }
    out
}

/// The work of copying the file at `source` to `target`, whose parent
/// directory is `parent`.
pub fn transfer_file(source: &str, target: &str, parent: Option<String>) -> (out: Transfer)
    ensures
        out@ == file_transfer_under(source@, target@, optional_text(parent)),
{
    let mut announce: Vec<CopyProgress> = Vec::new();
    announce.push(CopyProgress::new(1, 0, Some(source.to_owned())));
    let mut prepare: Vec<Action> = Vec::new();
    match parent {
        Some(dir) => {
            prepare.push(Action::CreateDirAll { path: dir });
        },
        None => {},
    }
    prepare.push(Action::CopyFile { source: source.to_owned(), target: target.to_owned() });
    let mut conclude: Vec<CopyProgress> = Vec::new();
    conclude.push(CopyProgress::new(1, 1, Some(source.to_owned())));
    let out = Transfer {
        result: CopyResult::Created { files_copied: 1 },
        announce,
        prepare,
        entries: Vec::new(),
        conclude,
    };
    proof {
        let plan = file_transfer_under(source@, target@, optional_text(parent));
        assert(out@.announce =~= plan.announce);
        assert(out@.prepare =~= plan.prepare);
        assert(out@.entries =~= plan.entries);
        assert(out@.conclude =~= plan.conclude);
    }
    out
}

/// Decides the copy of the file at `source` to `target`. An absent source
/// and a present target each end it with nothing to do.
pub fn copy_file(source: &str, target: &str, source_exists: bool, target_exists: bool) -> (out:
    Transfer)
    ensures
        out@ == copy_file_plan(source@, target@, source_exists, target_exists),
{
    if !source_exists {
        nothing(CopyResult::SourceNotFound)
    } else if target_exists {
        nothing(CopyResult::Exists)
    } else {
        transfer_file(source, target, parent(target))
    }
}

/// Decides the copy of the file at `source` over `target`. Only an absent
/// source ends it with nothing to do.
pub fn overwrite_file(source: &str, target: &str, source_exists: bool) -> (out: Transfer)
    ensures
        out@ == overwrite_file_plan(source@, target@, source_exists),
{
    if !source_exists {
        nothing(CopyResult::SourceNotFound)
    } else {
        transfer_file(source, target, parent(target))
    }
}

/// The views of a sequence of optional texts.
pub open spec fn optional_texts(items: Seq<Option<String>>) -> Seq<Option<Seq<char>>> {
    items.map_values(|item: Option<String>| optional_text(item))
}

/// Lists the directories among `parents`, each once, at the place of its
/// first occurrence.
pub fn distinct_directories(parents: &Vec<Option<String>>) -> (out: Vec<String>)
    ensures
        texts(out@) == distinct(optional_texts(parents@)),
{
    let ghost all = optional_texts(parents@);
    let mut directories: Vec<String> = Vec::new();
    let mut i: usize = 0;
    proof {
        assert(all.take(0) =~= Seq::<Option<Seq<char>>>::empty());
        assert(texts(directories@) =~= Seq::<Seq<char>>::empty());
    }
    while i < parents.len()
        invariant
            i <= parents.len(),
            all == optional_texts(parents@),
            texts(directories@) == distinct(all.take(i as int)),
        decreases parents.len() - i,
    {
        proof {
            assert(all.take(i + 1).drop_last() =~= all.take(i as int));
            assert(all.take(i + 1).last() == optional_text(parents@[i as int]));
        }
        match &parents[i] {
            Some(dir) => {
                if !is_among(&directories, dir) {
                    let ghost before = texts(directories@);
                    directories.push(dir.clone());
                    proof {
                        assert(texts(directories@) =~= before.push(dir@));
                    }
                }
            },
            None => {},
        }
        i += 1;
    }
    proof {
        assert(all.take(i as int) =~= all);
    }
    directories
}

fn parents(entries: &Vec<FileEntry>) -> (out: Vec<Option<String>>)
    ensures
        optional_texts(out@) == parents_of(entries_of(entries@)),
{
    let mut out: Vec<Option<String>> = Vec::new();
    let mut i: usize = 0;
    proof {
        assert(optional_texts(out@) =~= parents_of(entries_of(entries@)).take(0));
    }
    while i < entries.len()
        invariant
            i <= entries.len(),
            optional_texts(out@) == parents_of(entries_of(entries@)).take(i as int),
        decreases entries.len() - i,
    {
        let ghost before = optional_texts(out@);
        let dir = parent(entries[i].target.as_str());
        out.push(dir);
        proof {
            assert(optional_texts(out@) =~= before.push(optional_text(dir)));
            assert(parents_of(entries_of(entries@)).take(i + 1) =~= parents_of(
                entries_of(entries@),
            ).take(i as int).push(parent_of(entries@[i as int].target@)));
        }
        i += 1;
    }
    proof {
        assert(parents_of(entries_of(entries@)).take(i as int) =~= parents_of(
            entries_of(entries@),
        ));
    }
    out
}

/// The work of copying the files `entries` into a directory at `target`,
/// `directories` being the directories that the files go into.
pub fn transfer_directory(target: &str, entries: Vec<FileEntry>, directories: &Vec<String>) -> (out:
    Transfer)
    ensures
        out@ == directory_transfer_with(target@, entries_of(entries@), texts(directories@)),
{
    let ghost files = entries_of(entries@);
    let total: u64 = entries.len() as u64;
    if total == 0 {
        let mut prepare: Vec<Action> = Vec::new();
        prepare.push(Action::CreateDirAll { path: target.to_owned() });
        let out = Transfer {
            result: CopyResult::Created { files_copied: 0 },
            announce: Vec::new(),
            prepare,
            entries,
            conclude: Vec::new(),
        };
        proof {
            let plan = directory_transfer_with(target@, files, texts(directories@));
            assert(out@.announce =~= plan.announce);
            assert(out@.prepare =~= plan.prepare);
            assert(out@.entries =~= plan.entries);
            assert(out@.conclude =~= plan.conclude);
        }
        return out;
    }
    let mut announce: Vec<CopyProgress> = Vec::new();
    announce.push(CopyProgress::new(total, 0, None));
    let mut prepare: Vec<Action> = Vec::new();
    let mut i: usize = 0;
    while i < directories.len()
        invariant
            i <= directories.len(),
            actions_of(prepare@) == creations(texts(directories@).take(i as int)),
        decreases directories.len() - i,
    {
        let ghost before = actions_of(prepare@);
        let action = Action::CreateDirAll { path: directories[i].clone() };
        prepare.push(action);
        proof {
            assert(actions_of(prepare@) =~= before.push(action@));
            assert(texts(directories@).take(i + 1) =~= texts(directories@).take(i as int).push(
                directories@[i as int]@,
            ));
            assert(creations(texts(directories@).take(i + 1)) =~= creations(
                texts(directories@).take(i as int),
            ).push(action@));
        }
        i += 1;
    }
    proof {
        assert(texts(directories@).take(i as int) =~= texts(directories@));
    }
    let mut conclude: Vec<CopyProgress> = Vec::new();
    conclude.push(CopyProgress::new(total, total, None));
    let out = Transfer {
        result: CopyResult::Created { files_copied: total },
        announce,
        prepare,
        entries,
        conclude,
    };
    proof {
        let plan = directory_transfer_with(target@, files, texts(directories@));
        assert(out@.announce =~= plan.announce);
        assert(out@.conclude =~= plan.conclude);
    }
    out
}

/// Decides the copy of the directory at `source` to `target`, given the
/// walk of `source`. An absent source and a present target each end it
/// with nothing to do; the walk is read only past those two.
pub fn copy_directory(
    source: &str,
    target: &str,
    source_exists: bool,
    target_exists: bool,
    walked: &Vec<Walked>,
) -> (out: Result<Transfer, CopyError>)
    ensures
        match out {
            Ok(transfer) => copy_directory_plan(
                source@,
                target@,
                source_exists,
                target_exists,
                walk_of(walked@),
            ) == Ok::<TransferView, CopyErrorView>(transfer@),
            Err(error) => copy_directory_plan(
                source@,
                target@,
                source_exists,
                target_exists,
                walk_of(walked@),
            ) == Err::<TransferView, CopyErrorView>(error@),
        },
{
    if !source_exists {
        return Ok(nothing(CopyResult::SourceNotFound));
    }
    if target_exists {
        return Ok(nothing(CopyResult::Exists));
    }
    let entries = match enumerate_directory(source, target, walked) {
        Ok(entries) => entries,
        Err(error) => {
            return Err(error);
        },
    };
    let directories = distinct_directories(&parents(&entries));
    Ok(transfer_directory(target, entries, &directories))
}

/// Whether the walk of the source is needed to decide a directory copy.
pub fn needs_walk(source_exists: bool, target_exists: bool) -> (out: bool)
    ensures
        out == (source_exists && !target_exists),
{
    source_exists && !target_exists
}

/// The action that transfers an entry: a link is recreated, anything else
/// is copied.
pub open spec fn transfer_of(entry: FileEntryView) -> ActionView {
    if entry.is_symlink {
        ActionView::CopySymlink { source: entry.source, target: entry.target }
    } else {
        ActionView::CopyFile { source: entry.source, target: entry.target }
    }
}

/// The action that transfers one entry.
pub fn entry_action(entry: &FileEntry) -> (out: Action)
    ensures
        out@ == transfer_of(entry@),
{
    if entry.is_symlink {
        Action::CopySymlink { source: entry.source.clone(), target: entry.target.clone() }
    } else {
        Action::CopyFile { source: entry.source.clone(), target: entry.target.clone() }
    }
}

/// Whether progress is to be reported once `copied` of `total` entries are
/// transferred: at every full hundred, and at the last one.
pub fn report_due(copied: u64, total: u64) -> (out: bool)
    ensures
        out == (copied % 100 == 0 || copied == total),
{
    copied % 100 == 0 || copied == total
}

} // verus!
