//! What the changes that the engine asks for mean: a disk as a map from
//! paths to what is found at them, and each action and step as a relation
//! between the disk before and the disk after.
//!
//! Whoever carries out the engine's decisions is held to these meanings;
//! the laws of the engine are stated over them.

use crate::execute::StepView;
use crate::transfer::ActionView;
use crate::transfer::FileEntryView;
use crate::transfer::transfer_of;
use vstd::prelude::*;

verus! {

/// What is found at a path.
pub ghost enum Node {
    /// A file with its bytes.
    File(Seq<u8>),
    /// A directory.
    Directory,
    /// A link with the place it points to, as written.
    Link(Seq<char>),
}

/// A disk: what is found at each path at which something is.
pub type Disk = Map<Seq<char>, Node>;

/// Whether `after` holds everything that `before` holds, unchanged.
pub open spec fn keeps(before: Disk, after: Disk) -> bool {
    forall|path: Seq<char>| #[trigger]
        before.contains_key(path) ==> after.contains_key(path) && after[path] == before[path]
}

/// Whether `after` is what a disk `before` becomes by `action`, the
/// action having succeeded. Creating a directory with its ancestors adds
/// directories and changes nothing that is there; copying a file puts the
/// bytes of the source at the target, whatever was there; copying a link
/// puts a link to the same place at the target.
pub open spec fn performs(before: Disk, action: ActionView, after: Disk) -> bool {
    match action {
        ActionView::CreateDirAll { path } => {
            &&& keeps(before, after)
            &&& after.contains_key(path) && after[path] is Directory
            &&& forall|other: Seq<char>| #[trigger]
                after.contains_key(other) && !before.contains_key(other)
                    ==> after[other] is Directory
        },
        ActionView::CopyFile { source, target } => {
            &&& before.contains_key(source)
            &&& before[source] is File
            &&& after == before.insert(target, before[source])
        },
        ActionView::CopySymlink { source, target } => {
            &&& before.contains_key(source)
            &&& before[source] is Link
            &&& !before.contains_key(target)
            &&& after == before.insert(target, before[source])
        },
    }
}

/// Whether `disks` are the states that a disk goes through while
/// `actions` are carried out in order, each having succeeded: from
/// `before`, each action leads from one state to the next, and the last
/// state is `after`.
pub open spec fn leads(disks: Seq<Disk>, before: Disk, actions: Seq<ActionView>, after: Disk) -> bool {
    &&& disks.len() == actions.len() + 1
    &&& disks[0] == before
    &&& disks[actions.len() as int] == after
    &&& forall|i: int|
        0 <= i < actions.len() ==> performs(#[trigger] disks[i], actions[i], disks[i + 1])
}

/// Whether `after` is what a disk `before` becomes by `actions`, carried
/// out in order, each having succeeded.
pub open spec fn carries_out(before: Disk, actions: Seq<ActionView>, after: Disk) -> bool {
    exists|disks: Seq<Disk>| #[trigger] leads(disks, before, actions, after)
}

/// The actions that transfer `entries`, in order.
pub open spec fn transfers_of(entries: Seq<FileEntryView>) -> Seq<ActionView> {
    entries.map_values(|entry: FileEntryView| transfer_of(entry))
}

/// Whether `entries` go to fresh places: no entry goes where an entry
/// comes from, and no two go to the same place.
pub open spec fn go_to_fresh_places(entries: Seq<FileEntryView>) -> bool {
    &&& forall|i: int, j: int|
        0 <= i < entries.len() && 0 <= j < entries.len() ==> (#[trigger] entries[i]).target != (
        #[trigger] entries[j]).source
    &&& forall|i: int, j: int|
        0 <= i < j < entries.len() ==> (#[trigger] entries[i]).target != (
        #[trigger] entries[j]).target
}

/// Whether `after` holds an exact copy of `entry` as it was on `before`:
/// the target holds what the source held, a file with the same bytes for
/// a file and a link to the same place, as it was written, for a link;
/// and the source is as it was.
pub open spec fn copied_exactly(before: Disk, after: Disk, entry: FileEntryView) -> bool {
    &&& before.contains_key(entry.source)
    &&& after.contains_key(entry.target)
    &&& after[entry.target] == before[entry.source]
    &&& entry.is_symlink ==> after[entry.target] is Link
    &&& !entry.is_symlink ==> after[entry.target] is File
    &&& after.contains_key(entry.source)
    &&& after[entry.source] == before[entry.source]
}

/// Whether `path` is the target of one of `entries`.
pub open spec fn is_target(entries: Seq<FileEntryView>, path: Seq<char>) -> bool {
    exists|i: int| 0 <= i < entries.len() && (#[trigger] entries[i]).target == path
}

/// Whether everything on `before` but the targets of `entries` is on
/// `after` as it was.
pub open spec fn untouched_elsewhere(before: Disk, after: Disk, entries: Seq<FileEntryView>) -> bool {
    forall|path: Seq<char>| #[trigger]
        before.contains_key(path) && !is_target(entries, path) ==> after.contains_key(path)
            && after[path] == before[path]
}

/// Whether `entries` go to places that are new on `disk`, each to its
/// own: every source is on the disk, no target is, and no two entries
/// share a target.
pub open spec fn go_to_new_places(disk: Disk, entries: Seq<FileEntryView>) -> bool {
    &&& forall|i: int| 0 <= i < entries.len() ==> disk.contains_key((#[trigger] entries[i]).source)
    &&& forall|i: int| 0 <= i < entries.len() ==> !disk.contains_key((#[trigger] entries[i]).target)
    &&& forall|i: int, j: int|
        0 <= i < j < entries.len() ==> (#[trigger] entries[i]).target != (
        #[trigger] entries[j]).target
}

/// Whether `after` is what a disk `before` becomes by `step`, the step
/// having succeeded. A removal takes away and changes nothing that stays;
/// a link is created only where nothing is.
pub open spec fn takes(before: Disk, step: StepView, after: Disk) -> bool {
    match step {
        StepView::CreateDirAll { path } => performs(
            before,
            ActionView::CreateDirAll { path },
            after,
        ),
        StepView::RemoveFile { path } => {
            &&& before.contains_key(path)
            &&& !(before[path] is Directory)
            &&& after == before.remove(path)
        },
        StepView::RemoveDirAll { path } => {
            &&& before.contains_key(path)
            &&& !after.contains_key(path)
            &&& keeps(after, before)
        },
        StepView::Symlink { source, target } => {
            &&& !before.contains_key(target)
            &&& after == before.insert(target, Node::Link(source))
        },
    }
}

/// Whether `disks` are the states that a disk goes through while `steps`
/// are taken in order, each having succeeded.
pub open spec fn follows(disks: Seq<Disk>, before: Disk, steps: Seq<StepView>, after: Disk) -> bool {
    &&& disks.len() == steps.len() + 1
    &&& disks[0] == before
    &&& disks[steps.len() as int] == after
    &&& forall|i: int| 0 <= i < steps.len() ==> takes(#[trigger] disks[i], steps[i], disks[i + 1])
}

/// Whether `after` is what a disk `before` becomes by `steps`, taken in
/// order, each having succeeded.
pub open spec fn takes_all(before: Disk, steps: Seq<StepView>, after: Disk) -> bool {
    exists|disks: Seq<Disk>| #[trigger] follows(disks, before, steps, after)
}

} // verus!
