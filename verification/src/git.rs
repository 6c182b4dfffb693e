//! What the engine needs to know of version control: working copies, how
//! one is created, and which failures the collaborator can report.

use crate::text::begins_with;
use crate::text::characters;
use crate::text::compose;
use crate::text::copy_of;
use crate::text::find;
use crate::text::first_place;
use crate::text::found_at;
use crate::text::includes;
use crate::text::is_among;
use crate::text::lemma_squeezed_is_strict;
use crate::text::optional_text;
use crate::text::prefixed;
use crate::text::second_piece;
use crate::text::squeeze;
use crate::text::strictly_ordered;
use crate::text::texts;
use crate::trusted::sort;
use vstd::prelude::*;
use vstd::string::*;

verus! {

/// A failure of version control. Where a failure has an underlying cause,
/// the variant carries its text.
#[derive(Debug)]
pub enum GitError {
    /// The repository could not be opened.
    OpenError { path: String, source: String },
    /// No repository was found.
    DiscoverError { path: String, source: String },
    /// The repository has no working directory.
    BareRepository,
    /// The working copies could not be listed.
    WorktreeListError(String),
    /// A working copy could not be created.
    WorktreeCreateError { path: String, source: String },
    /// The state of the files could not be read.
    StatusError(String),
    /// The current head could not be read.
    HeadError(String),
    /// The branches could not be listed.
    BranchListError(String),
    /// No main working copy was found.
    NoMainWorktree,
    /// A working copy of that name was not found.
    WorktreeNotFound(String),
    /// The path cannot be used.
    InvalidPath(String),
}

/// Mathematical form of a [`GitError`].
pub ghost enum GitErrorView {
    OpenError { path: Seq<char>, source: Seq<char> },
    DiscoverError { path: Seq<char>, source: Seq<char> },
    BareRepository,
    WorktreeListError(Seq<char>),
    WorktreeCreateError { path: Seq<char>, source: Seq<char> },
    StatusError(Seq<char>),
    HeadError(Seq<char>),
    BranchListError(Seq<char>),
    NoMainWorktree,
    WorktreeNotFound(Seq<char>),
    InvalidPath(Seq<char>),
}

impl View for GitError {
    type V = GitErrorView;

    open spec fn view(&self) -> GitErrorView {
        match self {
            GitError::OpenError { path, source } => GitErrorView::OpenError {
                path: path@,
                source: source@,
            },
            GitError::DiscoverError { path, source } => GitErrorView::DiscoverError {
                path: path@,
                source: source@,
            },
            GitError::BareRepository => GitErrorView::BareRepository,
            GitError::WorktreeListError(source) => GitErrorView::WorktreeListError(source@),
            GitError::WorktreeCreateError { path, source } => GitErrorView::WorktreeCreateError {
                path: path@,
                source: source@,
            },
            GitError::StatusError(source) => GitErrorView::StatusError(source@),
            GitError::HeadError(source) => GitErrorView::HeadError(source@),
            GitError::BranchListError(source) => GitErrorView::BranchListError(source@),
            GitError::NoMainWorktree => GitErrorView::NoMainWorktree,
            GitError::WorktreeNotFound(name) => GitErrorView::WorktreeNotFound(name@),
            GitError::InvalidPath(path) => GitErrorView::InvalidPath(path@),
        }
    }
}

impl GitErrorView {
    /// The text that describes the failure.
    pub open spec fn message(self) -> Seq<char> {
        match self {
            GitErrorView::OpenError { path, source } => "Failed to open repository at "@ + path
                + ": "@ + source,
            GitErrorView::DiscoverError { path, source } => "Failed to discover repository from "@
                + path + ": "@ + source,
            GitErrorView::BareRepository => "Repository has no working directory (bare repository)"@,
            GitErrorView::WorktreeListError(source) => "Failed to list worktrees: "@ + source,
            GitErrorView::WorktreeCreateError { path, source } => "Failed to create worktree at "@
                + path + ": "@ + source,
            GitErrorView::StatusError(source) => "Failed to get repository status: "@ + source,
            GitErrorView::HeadError(source) => "Failed to get HEAD reference: "@ + source,
            GitErrorView::BranchListError(source) => "Failed to list branches: "@ + source,
            GitErrorView::NoMainWorktree => "No main worktree found"@,
            GitErrorView::WorktreeNotFound(name) => "Worktree not found: "@ + name,
            GitErrorView::InvalidPath(path) => "Invalid path: "@ + path,
        }
    }
}

impl GitError {
    /// The text that describes the failure.
    pub fn message(&self) -> (out: String)
        ensures
            out@ == self@.message(),
    {
        match self {
            GitError::OpenError { path, source } => compose(
                "Failed to open repository at ",
                path.as_str(),
                ": ",
                source.as_str(),
            ),
            GitError::DiscoverError { path, source } => compose(
                "Failed to discover repository from ",
                path.as_str(),
                ": ",
                source.as_str(),
            ),
            GitError::BareRepository => String::from_str(
                "Repository has no working directory (bare repository)",
            ),
            GitError::WorktreeListError(source) => prefixed(
                "Failed to list worktrees: ",
                source.as_str(),
            ),
            GitError::WorktreeCreateError { path, source } => compose(
                "Failed to create worktree at ",
                path.as_str(),
                ": ",
                source.as_str(),
            ),
            GitError::StatusError(source) => prefixed(
                "Failed to get repository status: ",
                source.as_str(),
            ),
            GitError::HeadError(source) => prefixed("Failed to get HEAD reference: ", source.as_str()),
            GitError::BranchListError(source) => prefixed(
                "Failed to list branches: ",
                source.as_str(),
            ),
            GitError::NoMainWorktree => String::from_str("No main worktree found"),
            GitError::WorktreeNotFound(name) => prefixed("Worktree not found: ", name.as_str()),
            GitError::InvalidPath(path) => prefixed("Invalid path: ", path.as_str()),
        }
    }
}

/// A working copy of a repository.
#[derive(Debug)]
pub struct WorktreeInfo {
    /// Where the working copy is.
    pub path: String,
    /// Whether it is the main working copy.
    pub is_main: bool,
    /// The branch that is checked out, unless the head is detached.
    pub branch: Option<String>,
    /// The commit that is checked out, abbreviated.
    pub commit: Option<String>,
}

/// Mathematical form of a [`WorktreeInfo`].
pub ghost struct WorktreeInfoView {
    pub path: Seq<char>,
    pub is_main: bool,
    pub branch: Option<Seq<char>>,
    pub commit: Option<Seq<char>>,
}

impl View for WorktreeInfo {
    type V = WorktreeInfoView;

    open spec fn view(&self) -> WorktreeInfoView {
        WorktreeInfoView {
            path: self.path@,
            is_main: self.is_main,
            branch: optional_text(self.branch),
            commit: optional_text(self.commit),
        }
    }
}

impl Clone for WorktreeInfo {
    fn clone(&self) -> (out: WorktreeInfo)
        ensures
            out@ == self@,
    {
        WorktreeInfo {
            path: self.path.clone(),
            is_main: self.is_main,
            branch: copy_of(&self.branch),
            commit: copy_of(&self.commit),
        }
    }
}

/// The views of a sequence of working copies.
pub open spec fn worktrees_of(worktrees: Seq<WorktreeInfo>) -> Seq<WorktreeInfoView> {
    worktrees.map_values(|worktree: WorktreeInfo| worktree@)
}

/// How a working copy is to be created.
#[derive(Debug)]
pub struct WorktreeCreateOptions {
    /// Existing branch to check out.
    pub branch: Option<String>,
    /// Branch to create and check out.
    pub new_branch: Option<String>,
    /// Whether to detach the head.
    pub detach: bool,
}

/// Mathematical form of a [`WorktreeCreateOptions`].
pub ghost struct WorktreeCreateOptionsView {
    pub branch: Option<Seq<char>>,
    pub new_branch: Option<Seq<char>>,
    pub detach: bool,
}

impl View for WorktreeCreateOptions {
    type V = WorktreeCreateOptionsView;

    open spec fn view(&self) -> WorktreeCreateOptionsView {
        WorktreeCreateOptionsView {
            branch: optional_text(self.branch),
            new_branch: optional_text(self.new_branch),
            detach: self.detach,
        }
    }
}

impl Clone for WorktreeCreateOptions {
    fn clone(&self) -> (out: WorktreeCreateOptions)
        ensures
            out@ == self@,
    {
        WorktreeCreateOptions {
            branch: copy_of(&self.branch),
            new_branch: copy_of(&self.new_branch),
            detach: self.detach,
        }
    }
}

impl Default for WorktreeCreateOptions {
    fn default() -> (out: WorktreeCreateOptions)
        ensures
            out@ == (WorktreeCreateOptionsView { branch: None, new_branch: None, detach: false }),
    {
        WorktreeCreateOptions { branch: None, new_branch: None, detach: false }
    }
}

/// The arguments of the command that adds a working copy at `path`: the
/// two words of the command, the flag for a detached head where asked,
/// the new branch behind its flag where one is to be created, the path,
/// and last the branch to check out where one is given.
pub open spec fn worktree_arguments(path: Seq<char>, options: WorktreeCreateOptionsView) -> Seq<
    Seq<char>,
> {
    seq!["worktree"@, "add"@] + (if options.detach {
        seq!["--detach"@]
    } else {
        Seq::empty()
    }) + (match options.new_branch {
        Some(name) => seq!["-b"@, name],
        None => Seq::empty(),
    }) + seq![path] + (match options.branch {
        Some(name) => seq![name],
        None => Seq::empty(),
    })
}

/// Builds the arguments of the command that adds a working copy.
pub fn create_worktree(path: &str, options: &WorktreeCreateOptions) -> (out: Vec<String>)
    ensures
        texts(out@) == worktree_arguments(path@, options@),
{
    let mut arguments: Vec<String> = Vec::new();
    arguments.push(String::from_str("worktree"));
    arguments.push(String::from_str("add"));
    if options.detach {
        arguments.push(String::from_str("--detach"));
    }
    match &options.new_branch {
        Some(name) => {
            arguments.push(String::from_str("-b"));
            arguments.push(name.clone());
        },
        None => {},
    }
    arguments.push(path.to_owned());
    match &options.branch {
        Some(name) => {
            arguments.push(name.clone());
        },
        None => {},
    }
    proof {
        assert(texts(arguments@) =~= worktree_arguments(path@, options@));
    }
    arguments
}

/// The first main working copy among `worktrees`, if there is one.
pub open spec fn first_main(worktrees: Seq<WorktreeInfoView>) -> Option<WorktreeInfoView>
    decreases worktrees.len(),
{
    if worktrees.len() == 0 {
        None
    } else if worktrees.first().is_main {
        Some(worktrees.first())
    } else {
        first_main(worktrees.drop_first())
    }
}

/// Picks the main working copy out of the working copies of a repository.
pub fn get_main_worktree(worktrees: &Vec<WorktreeInfo>) -> (out: Result<WorktreeInfo, GitError>)
    ensures
        match out {
            Ok(main) => first_main(worktrees_of(worktrees@)) == Some(main@),
            Err(error) => first_main(worktrees_of(worktrees@)) is None && error@
                == GitErrorView::NoMainWorktree,
        },
{
    let ghost all = worktrees_of(worktrees@);
    let mut i: usize = 0;
    proof {
        assert(all.skip(0) =~= all);
    }
    while i < worktrees.len()
        invariant
            i <= worktrees.len(),
            all == worktrees_of(worktrees@),
            first_main(all) == first_main(all.skip(i as int)),
        decreases worktrees.len() - i,
    {
        proof {
            assert(all.skip(i as int).drop_first() =~= all.skip(i + 1));
            assert(all.skip(i as int).first() == worktrees@[i as int]@);
        }
        if worktrees[i].is_main {
            return Ok(worktrees[i].clone());
        }
        i += 1;
    }
    Err(GitError::NoMainWorktree)
}

/// What version control says of one file of the working copy.
#[derive(Debug)]
pub struct StatusEntry {
    /// Path of the file relative to the repository root, where it can be
    /// written as text.
    pub path: Option<String>,
    /// The file is not tracked.
    pub worktree_new: bool,
    /// The file differs from the index.
    pub worktree_modified: bool,
    /// The file is gone from the working copy.
    pub worktree_deleted: bool,
    /// The file has changed its type.
    pub worktree_typechange: bool,
    /// The file was renamed in the working copy.
    pub worktree_renamed: bool,
}

/// Mathematical form of a [`StatusEntry`].
pub ghost struct StatusEntryView {
    pub path: Option<Seq<char>>,
    pub worktree_new: bool,
    pub worktree_modified: bool,
    pub worktree_deleted: bool,
    pub worktree_typechange: bool,
    pub worktree_renamed: bool,
}

impl View for StatusEntry {
    type V = StatusEntryView;

    open spec fn view(&self) -> StatusEntryView {
        StatusEntryView {
            path: optional_text(self.path),
            worktree_new: self.worktree_new,
            worktree_modified: self.worktree_modified,
            worktree_deleted: self.worktree_deleted,
            worktree_typechange: self.worktree_typechange,
            worktree_renamed: self.worktree_renamed,
        }
    }
}

impl StatusEntryView {
    /// Whether the file has a change that is not staged, or is not tracked.
    pub open spec fn is_unstaged(self) -> bool {
        self.worktree_modified || self.worktree_deleted || self.worktree_typechange
            || self.worktree_renamed || self.worktree_new
    }

    /// Whether the file is listed among the uncommitted ones: it is
    /// unstaged and its path can be written.
    pub open spec fn is_listed(self) -> bool {
        self.is_unstaged() && self.path is Some
    }
}

/// The views of a sequence of entries.
pub open spec fn statuses_of(entries: Seq<StatusEntry>) -> Seq<StatusEntryView> {
    entries.map_values(|entry: StatusEntry| entry@)
}

/// Whether `path` is the path of a listed entry.
pub open spec fn is_uncommitted(entries: Seq<StatusEntryView>, path: Seq<char>) -> bool {
    exists|i: int| 0 <= i < entries.len() && (#[trigger] entries[i]).is_listed() && entries[i].path
        == Some(path)
}

/// Lists the files that have unstaged changes or are not tracked: each
/// once, in the order of texts.
pub fn get_unstaged_and_untracked_files(entries: &Vec<StatusEntry>) -> (out: Vec<String>)
    ensures
        strictly_ordered(texts(out@)),
        forall|path: Seq<char>| #[trigger]
            texts(out@).contains(path) <==> is_uncommitted(statuses_of(entries@), path),
{
    let ghost all = statuses_of(entries@);
    let mut files: Vec<String> = Vec::new();
    let mut i: usize = 0;
    while i < entries.len()
        invariant
            i <= entries.len(),
            all == statuses_of(entries@),
            forall|path: Seq<char>| #[trigger]
                texts(files@).contains(path) <==> is_uncommitted(all.take(i as int), path),
        decreases entries.len() - i,
    {
        let entry = &entries[i];
        let ghost before = texts(files@);
        let ghost seen = all.take(i as int);
        let ghost next = all.take(i + 1);
        let unstaged = entry.worktree_modified || entry.worktree_deleted
            || entry.worktree_typechange || entry.worktree_renamed || entry.worktree_new;
        let mut added = false;
        if unstaged {
            match &entry.path {
                Some(path) => {
                    files.push(path.clone());
                    added = true;
                    proof {
                        assert(texts(files@) =~= before.push(path@));
                    }
                },
                None => {},
            }
        }
        proof {
            assert(next[i as int] == entries@[i as int]@);
            assert forall|path: Seq<char>| #[trigger]
                texts(files@).contains(path) <==> is_uncommitted(next, path) by {
                if is_uncommitted(next, path) {
                    let k = choose|k: int|
                        0 <= k < next.len() && (#[trigger] next[k]).is_listed() && next[k].path
                            == Some(path);
                    if k < i {
                        assert(seen[k] == next[k]);
                        assert(is_uncommitted(seen, path));
                        assert(before.contains(path));
                        let m = choose|m: int| 0 <= m < before.len() && before[m] == path;
                        assert(texts(files@)[m] == path);
                    } else {
                        assert(added);
                        assert(texts(files@)[before.len() as int] == path);
                    }
                }
                if texts(files@).contains(path) {
                    let m = choose|m: int| 0 <= m < texts(files@).len() && texts(files@)[m] == path;
                    if m < before.len() {
                        assert(before[m] == path);
                        assert(before.contains(path));
                        let k = choose|k: int|
                            0 <= k < seen.len() && (#[trigger] seen[k]).is_listed() && seen[k].path
                                == Some(path);
                        assert(next[k] == seen[k]);
                    } else {
                        assert(next[i as int].is_listed() && next[i as int].path == Some(path));
                    }
                }
            }
        }
        i += 1;
    }
    proof {
        assert(all.take(i as int) =~= all);
    }
    let ghost collected = texts(files@);
    sort(&mut files);
    proof {
        let sorted = texts(files@);
        lemma_squeezed_is_strict(sorted);
        assert forall|path: Seq<char>| sorted.contains(path) <==> collected.contains(path) by {
            sorted.to_multiset_ensures();
            collected.to_multiset_ensures();
            assert(sorted.to_multiset().count(path) == collected.to_multiset().count(path));
        }
    }
    squeeze(&files)
}

/// The name of the remote's default branch, given what the remote's head
/// points to: what follows the prefix of the remote's branches.
pub open spec fn remote_default(head_target: Option<Seq<char>>) -> Option<Seq<char>> {
    match head_target {
        Some(target) => if begins_with(target, "refs/remotes/origin/"@) {
            Some(target.skip("refs/remotes/origin/"@.len() as int))
        } else {
            None
        },
        None => None,
    }
}

/// The default branch: that of the remote where its head says so; else
/// the configured one; else `main` or `master`, whichever is found first
/// in this order among the local branches; else none.
pub open spec fn default_branch(
    head_target: Option<Seq<char>>,
    configured: Option<Seq<char>>,
    branches: Option<Seq<Seq<char>>>,
) -> Option<Seq<char>> {
    if remote_default(head_target) is Some {
        remote_default(head_target)
    } else if configured is Some {
        configured
    } else {
        match branches {
            Some(names) => if names.contains("main"@) {
                Some("main"@)
            } else if names.contains("master"@) {
                Some("master"@)
            } else {
                None
            },
            None => None,
        }
    }
}

/// The view of an optional list of texts.
pub open spec fn optional_texts(items: Option<Vec<String>>) -> Option<Seq<Seq<char>>> {
    match items {
        Some(items) => Some(texts(items@)),
        None => None,
    }
}

/// Tells the default branch from the target of the remote's head, the
/// configured default and the local branches, each where it could be
/// read.
pub fn get_default_branch(
    head_target: Option<String>,
    configured: Option<String>,
    branches: Option<Vec<String>>,
) -> (out: Option<String>)
    ensures
        optional_text(out) == default_branch(
            optional_text(head_target),
            optional_text(configured),
            optional_texts(branches),
        ),
{
    match &head_target {
        Some(target) => {
            let prefix = characters("refs/remotes/origin/");
            let whole = characters(target.as_str());
            if found_at(&whole, &prefix, 0) {
                let rest = target.as_str().substring_char(prefix.len(), whole.len());
                proof {
                    assert(target@.subrange(prefix.len() as int, whole.len() as int) =~= target@.skip(
                        prefix.len() as int,
                    ));
                }
                return Some(String::from_str(rest));
            }
        },
        None => {},
    }
    if configured.is_some() {
        return configured;
    }
    match &branches {
        Some(names) => {
            let main = String::from_str("main");
            let master = String::from_str("master");
            if is_among(names, &main) {
                Some(main)
            } else if is_among(names, &master) {
                Some(master)
            } else {
                None
            }
        },
        None => None,
    }
}

/// The branch that a message of the head's log says was moved to: what
/// stands between the first ` to ` and the next, in a message that
/// records a checkout.
pub open spec fn checkout_target(message: Seq<char>) -> Option<Seq<char>> {
    if begins_with(message, "checkout: moving from "@) {
        second_piece(message.skip("checkout: moving from "@.len() as int), " to "@)
    } else {
        None
    }
}

/// Whether a branch is taken up among the recent ones: it is a name
/// without blanks that is not yet among them.
pub open spec fn is_new_branch(recent: Seq<Seq<char>>, branch: Seq<char>) -> bool {
    !recent.contains(branch) && !includes(branch, " "@)
}

/// The branches that the messages of the head's log record as checked
/// out, newest first, each once, and `limit` of them at most: the list
/// is closed as soon as it holds that many.
pub open spec fn recent_branches(messages: Seq<Option<Seq<char>>>, limit: nat) -> Seq<Seq<char>>
    decreases messages.len(),
{
    if messages.len() == 0 {
        Seq::empty()
    } else {
        let before = recent_branches(messages.drop_last(), limit);
        if before.len() >= limit {
            before
        } else {
            match messages.last() {
                Some(message) => match checkout_target(message) {
                    Some(branch) => if is_new_branch(before, branch) {
                        before.push(branch)
                    } else {
                        before
                    },
                    None => before,
                },
                None => before,
            }
        }
    }
}

/// The views of a sequence of optional texts.
pub open spec fn optional_texts_of(items: Seq<Option<String>>) -> Seq<Option<Seq<char>>> {
    items.map_values(|item: Option<String>| optional_text(item))
}

proof fn lemma_recent_branches_stay_closed(messages: Seq<Option<Seq<char>>>, limit: nat, k: int)
    requires
        0 <= k <= messages.len(),
        recent_branches(messages.take(k), limit).len() >= limit,
    ensures
        recent_branches(messages, limit) == recent_branches(messages.take(k), limit),
    decreases messages.len() - k,
{
    if k < messages.len() {
        assert(messages.take(k + 1).drop_last() =~= messages.take(k));
        lemma_recent_branches_stay_closed(messages, limit, k + 1);
    } else {
        assert(messages.take(k) =~= messages);
    }
}

fn target_of_checkout(message: &str) -> (out: Option<String>)
    ensures
        optional_text(out) == checkout_target(message@),
{
    let prefix = characters("checkout: moving from ");
    let whole = characters(message);
    if !found_at(&whole, &prefix, 0) {
        return None;
    }
    let rest_text = message.substring_char(prefix.len(), whole.len());
    proof {
        assert(message@.subrange(prefix.len() as int, whole.len() as int) =~= message@.skip(
            prefix.len() as int,
        ));
    }
    let rest = characters(rest_text);
    let separator = characters(" to ");
    match first_place(&rest, &separator, 0) {
        None => None,
        Some(first) => {
            let start = first + separator.len();
            match first_place(&rest, &separator, start) {
                Some(second) => Some(String::from_str(rest_text.substring_char(start, second))),
                None => {
                    proof {
                        assert(rest@.subrange(start as int, rest.len() as int) =~= rest@.skip(
                            start as int,
                        ));
                    }
                    Some(String::from_str(rest_text.substring_char(start, rest.len())))
                },
            }
        },
    }
}

/// Lists the branches that were checked out most recently, given the
/// messages of the head's log, newest first: `limit` branches at most.
pub fn get_recent_branches(messages: &Vec<Option<String>>, limit: usize) -> (out: Vec<String>)
    ensures
        texts(out@) == recent_branches(optional_texts_of(messages@), limit as nat),
        out.len() <= limit,
{
    let ghost all = optional_texts_of(messages@);
    let blank = characters(" ");
    let mut recent: Vec<String> = Vec::new();
    let mut i: usize = 0;
    proof {
        assert(all.take(0) =~= Seq::<Option<Seq<char>>>::empty());
        assert(texts(recent@) =~= Seq::<Seq<char>>::empty());
    }
    if limit == 0 {
        proof {
            lemma_recent_branches_stay_closed(all, 0, 0);
        }
        return recent;
    }
    while i < messages.len()
        invariant
            i <= messages.len(),
            all == optional_texts_of(messages@),
            blank@ == " "@,
            texts(recent@) == recent_branches(all.take(i as int), limit as nat),
            recent.len() < limit,
        decreases messages.len() - i,
    {
        proof {
            assert(all.take(i + 1).drop_last() =~= all.take(i as int));
            assert(all.take(i + 1).last() == optional_text(messages@[i as int]));
        }
        match &messages[i] {
            Some(message) => {
                match target_of_checkout(message.as_str()) {
                    Some(branch) => {
                        let name = characters(branch.as_str());
                        if !is_among(&recent, &branch) && find(&name, &blank, 0).is_none() {
                            let ghost before = texts(recent@);
                            recent.push(branch);
                            proof {
                                assert(texts(recent@) =~= before.push(branch@));
                            }
                            if recent.len() >= limit {
                                proof {
                                    lemma_recent_branches_stay_closed(all, limit as nat, i + 1);
                                }
                                return recent;
                            }
                        }
                    },
                    None => {},
                }
            },
            None => {},
        }
        i += 1;
    }
    proof {
        assert(all.take(i as int) =~= all);
    }
    recent
}

/// The first eight characters of a commit's name.
pub fn abbreviate(commit: &str) -> (out: String)
    requires
        commit@.len() >= 8,
    ensures
        out@ == commit@.take(8),
{
    let short = commit.substring_char(0, 8);
    proof {
        assert(commit@.subrange(0, 8) =~= commit@.take(8));
    }
    String::from_str(short)
}

} // verus!
