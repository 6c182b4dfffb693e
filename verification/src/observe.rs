//! What was observed of the two trees before planning: the state of single
//! paths and the matches of glob patterns.
//!
//! The library never touches a disk. Its caller looks, writes down what it
//! saw, and every decision is then a function of that record.

use crate::text::texts;
use vstd::prelude::*;

verus! {

/// The state of one path.
#[derive(Debug, Clone, Copy, PartialEq, Eq, Structural)]
pub struct PathStatus {
    /// The path leads to something, links followed.
    pub exists: bool,
    /// The path leads to a regular file, links followed.
    pub is_file: bool,
    /// The path leads to a directory, links followed.
    pub is_dir: bool,
    /// The path itself is a symbolic link.
    pub is_symlink: bool,
}

/// What is known of one path: its state, and the number of files counted
/// below it.
#[derive(Debug, Clone, Copy, PartialEq, Eq, Structural)]
pub struct PathFacts {
    /// State of the path.
    pub status: PathStatus,
    /// Files counted at the path.
    pub file_count: u64,
}

/// The state of a path at which nothing was found.
pub open spec fn absent() -> PathStatus {
    PathStatus { exists: false, is_file: false, is_dir: false, is_symlink: false }
}

/// The facts of a path of which nothing was recorded.
pub open spec fn unknown() -> PathFacts {
    PathFacts { status: absent(), file_count: 0 }
}

impl PathStatus {
    /// Nothing is at the path.
    pub fn missing() -> (out: PathStatus)
        ensures
            out == absent(),
    {
        PathStatus { exists: false, is_file: false, is_dir: false, is_symlink: false }
    }

    /// A regular file is at the path.
    pub fn file() -> (out: PathStatus)
        ensures
            out == (PathStatus { exists: true, is_file: true, is_dir: false, is_symlink: false }),
    {
        PathStatus { exists: true, is_file: true, is_dir: false, is_symlink: false }
    }

    /// A directory is at the path.
    pub fn directory() -> (out: PathStatus)
        ensures
            out == (PathStatus { exists: true, is_file: false, is_dir: true, is_symlink: false }),
    {
        PathStatus { exists: true, is_file: false, is_dir: true, is_symlink: false }
    }

    /// The path is occupied: something is reached through it, or it is a
    /// link, dangling or not.
    pub open spec fn occupied(self) -> bool {
        self.exists || self.is_symlink
    }
}

struct PathRecord {
    path: String,
    facts: PathFacts,
}

struct GlobRecord {
    pattern: String,
    matches: Vec<String>,
}

/// A record of observations, keyed by path and by pattern. A later record
/// of the same key replaces an earlier one.
pub struct Snapshot {
    paths: Vec<PathRecord>,
    globs: Vec<GlobRecord>,
}

/// Mathematical form of a [`Snapshot`].
pub ghost struct SnapshotView {
    pub paths: Map<Seq<char>, PathFacts>,
    pub globs: Map<Seq<char>, Seq<Seq<char>>>,
}

spec fn path_table(records: Seq<PathRecord>) -> Map<Seq<char>, PathFacts>
    decreases records.len(),
{
    if records.len() == 0 {
        Map::empty()
    } else {
        path_table(records.drop_last()).insert(records.last().path@, records.last().facts)
    }
}

spec fn glob_table(records: Seq<GlobRecord>) -> Map<Seq<char>, Seq<Seq<char>>>
    decreases records.len(),
{
    if records.len() == 0 {
        Map::empty()
    } else {
        glob_table(records.drop_last()).insert(
            records.last().pattern@,
            texts(records.last().matches@),
        )
    }
}

impl View for Snapshot {
    type V = SnapshotView;

    closed spec fn view(&self) -> SnapshotView {
        SnapshotView { paths: path_table(self.paths@), globs: glob_table(self.globs@) }
    }
}

impl SnapshotView {
    /// The facts recorded of `path`, or those of an unknown path.
    pub open spec fn facts(self, path: Seq<char>) -> PathFacts {
        if self.paths.contains_key(path) {
            self.paths[path]
        } else {
            unknown()
        }
    }

    /// The state recorded of `path`.
    pub open spec fn status(self, path: Seq<char>) -> PathStatus {
        self.facts(path).status
    }

    /// The matches recorded of `pattern`, or none.
    pub open spec fn expansion(self, pattern: Seq<char>) -> Seq<Seq<char>> {
        if self.globs.contains_key(pattern) {
            self.globs[pattern]
        } else {
            Seq::empty()
        }
    }
}

impl Snapshot {
    /// A record that holds no observation.
    pub fn new() -> (out: Snapshot)
        ensures
            out@.paths == Map::<Seq<char>, PathFacts>::empty(),
            out@.globs == Map::<Seq<char>, Seq<Seq<char>>>::empty(),
    {
        Snapshot { paths: Vec::new(), globs: Vec::new() }
    }

    /// Records the state of `path` and the files counted at it.
    pub fn record(&mut self, path: String, status: PathStatus, file_count: u64)
        ensures
            final(self)@.paths == old(self)@.paths.insert(path@, PathFacts { status, file_count }),
            final(self)@.globs == old(self)@.globs,
    {
        let ghost before = self.paths@;
        self.paths.push(PathRecord { path, facts: PathFacts { status, file_count } });
        proof {
            assert(self.paths@.drop_last() =~= before);
        }
    }

    /// Records the state of `path` and keeps the files counted at it
    /// before, if any were.
    pub fn record_status(&mut self, path: String, status: PathStatus)
        ensures
            final(self)@.paths == old(self)@.paths.insert(
                path@,
                PathFacts { status, file_count: old(self)@.facts(path@).file_count },
            ),
            final(self)@.globs == old(self)@.globs,
    {
        let file_count = self.facts(path.as_str()).file_count;
        self.record(path, status, file_count);
    }

    /// Records the paths that `pattern` matched, in the order in which
    /// they were found.
    pub fn record_matches(&mut self, pattern: String, matches: Vec<String>)
        ensures
            final(self)@.globs == old(self)@.globs.insert(pattern@, texts(matches@)),
            final(self)@.paths == old(self)@.paths,
    {
        let ghost before = self.globs@;
        self.globs.push(GlobRecord { pattern, matches });
        proof {
            assert(self.globs@.drop_last() =~= before);
        }
    }

    /// The facts recorded of `path`.
    pub fn facts(&self, path: &str) -> (out: PathFacts)
        ensures
            out == self@.facts(path@),
    {
        let key = path.to_owned();
        let mut i: usize = self.paths.len();
        proof {
            assert(self.paths@.take(i as int) =~= self.paths@);
        }
        while i > 0
            invariant
                i <= self.paths.len(),
                key@ == path@,
                path_table(self.paths@).contains_key(path@) == path_table(
                    self.paths@.take(i as int),
                ).contains_key(path@),
                path_table(self.paths@).contains_key(path@) ==> path_table(self.paths@)[path@]
                    == path_table(self.paths@.take(i as int))[path@],
            decreases i,
        {
            let ghost front = self.paths@.take(i as int);
            proof {
                assert(front.drop_last() =~= self.paths@.take(i - 1));
                assert(front.last() == self.paths@[i - 1]);
            }
            i -= 1;
            if self.paths[i].path == key {
                return self.paths[i].facts;
            }
        }
        proof {
            assert(self.paths@.take(0) =~= Seq::<PathRecord>::empty());
        }
        PathFacts { status: PathStatus::missing(), file_count: 0 }
    }

    /// The state recorded of `path`.
    pub fn status(&self, path: &str) -> (out: PathStatus)
        ensures
            out == self@.status(path@),
    {
        self.facts(path).status
    }

    /// The matches recorded of `pattern`, if any were.
    pub fn matches(&self, pattern: &str) -> (out: Option<&Vec<String>>)
        ensures
            out is Some == self@.globs.contains_key(pattern@),
            out is Some ==> texts(out->0@) == self@.globs[pattern@],
    {
        let key = pattern.to_owned();
        let mut i: usize = self.globs.len();
        proof {
            assert(self.globs@.take(i as int) =~= self.globs@);
        }
        while i > 0
            invariant
                i <= self.globs.len(),
                key@ == pattern@,
                glob_table(self.globs@).contains_key(pattern@) == glob_table(
                    self.globs@.take(i as int),
                ).contains_key(pattern@),
                glob_table(self.globs@).contains_key(pattern@) ==> glob_table(
                    self.globs@,
                )[pattern@] == glob_table(self.globs@.take(i as int))[pattern@],
            decreases i,
        {
            let ghost front = self.globs@.take(i as int);
            proof {
                assert(front.drop_last() =~= self.globs@.take(i - 1));
                assert(front.last() == self.globs@[i - 1]);
            }
            i -= 1;
            if self.globs[i].pattern == key {
                return Some(&self.globs[i].matches);
            }
        }
        proof {
            assert(self.globs@.take(0) =~= Seq::<GlobRecord>::empty());
        }
        None
    }
}

} // verus!
