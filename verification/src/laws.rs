//! Laws of the engine: what holds of every plan and of every execution,
//! stated over the same spec functions as the contracts and proved from
//! them.

use crate::apply::ApplyItemView;
use crate::apply::declared_item;
use crate::apply::match_item;
use crate::apply::template_item;
use crate::config::LoadedConfigView;
use crate::config::TemplateMappingView;
use crate::effects::Disk;
use crate::effects::Node;
use crate::effects::carries_out;
use crate::effects::copied_exactly;
use crate::effects::follows;
use crate::effects::go_to_fresh_places;
use crate::effects::go_to_new_places;
use crate::effects::is_target;
use crate::effects::keeps;
use crate::effects::leads;
use crate::effects::performs;
use crate::effects::takes;
use crate::effects::takes_all;
use crate::effects::transfers_of;
use crate::effects::untouched_elsewhere;
use crate::execute::ExecutionView;
use crate::execute::copies_if_absent;
use crate::execute::directory_copy_plan;
use crate::execute::execution_of;
use crate::execute::file_overwrite_plan;
use crate::execute::settled;
use crate::execute::symlink_plan;
use crate::observe::PathStatus;
use crate::observe::SnapshotView;
use crate::outcome::OperationErrorView;
use crate::outcome::OperationResult;
use crate::paths::after_separator;
use crate::paths::is_root_relative;
use crate::paths::label_of;
use crate::paths::location_of;
use crate::plan::OperationType;
use crate::plan::PlannedOperationView;
use crate::plan::operation_of;
use crate::plan::planned_declared;
use crate::plan::planned_found;
use crate::plan::planned_match;
use crate::plan::planned_operations;
use crate::plan::planned_patterns;
use crate::plan::planned_template;
use crate::plan::reason_exists;
use crate::plan::reason_not_found;
use crate::plan::relative_dir;
use crate::transfer::ActionView;
use crate::transfer::CopyResult;
use crate::transfer::EntryKind;
use crate::transfer::FileEntryView;
use crate::transfer::WalkedView;
use crate::transfer::copy_directory_plan;
use crate::transfer::copy_file_plan;
use crate::transfer::creations;
use crate::transfer::directory_transfer;
use crate::transfer::distinct;
use crate::transfer::enumerated;
use crate::transfer::files_in;
use crate::transfer::idle;
use crate::transfer::is_transferable;
use crate::transfer::overwrite_file_plan;
use crate::transfer::parent_directories;
use crate::transfer::parents_of;
use crate::transfer::transfer_of;
use crate::trusted::joined;
use crate::trusted::parent_of;
use crate::trusted::without_prefix;
use vstd::prelude::*;

verus! {

/// The two reasons for skipping are different texts.
pub proof fn law_reasons_differ()
    ensures
        reason_not_found() != reason_exists(),
{
    reveal_strlit("not found");
    reveal_strlit("exists");
    assert(reason_not_found().len() == 9);
    assert(reason_exists().len() == 6);
}

/// A copy of a file is made once: with the source there and the target
/// absent the file is created; once the target is there, a second copy
/// reports that it exists and changes nothing, whatever the source.
pub proof fn law_file_copy_is_idempotent(source: Seq<char>, target: Seq<char>, source_exists: bool)
    ensures
        copy_file_plan(source, target, true, false).result == (CopyResult::Created {
            files_copied: 1,
        }),
        copy_file_plan(source, target, true, true) == idle(CopyResult::Exists),
        copy_file_plan(source, target, source_exists, true).prepare.len() == 0,
        copy_file_plan(source, target, source_exists, true).entries.len() == 0,
{
}

/// A copy of a directory is made once: once the target is there, a second
/// copy reports that it exists and changes nothing, whatever the walk of
/// the source shows.
pub proof fn law_directory_copy_is_idempotent(
    source: Seq<char>,
    target: Seq<char>,
    walked: Seq<WalkedView>,
)
    ensures
        copy_directory_plan(source, target, true, false, walked) matches Ok(first)
            ==> first.result is Created,
        copy_directory_plan(source, target, true, true, walked) == Ok::<_, crate::transfer::CopyErrorView>(
            idle(CopyResult::Exists),
        ),
{
}

/// A directory operation that does not go ahead touches nothing: where
/// the source is absent or the target is there, no step is taken, nothing
/// is transferred and nothing is reported, so that neither the target nor
/// its parent is created and no change can fail.
pub proof fn law_directory_copy_touches_nothing_unless_it_goes_ahead(
    source: Seq<char>,
    target: Seq<char>,
    source_exists: bool,
    target_exists: bool,
    walked: Seq<WalkedView>,
)
    requires
        !source_exists || target_exists,
    ensures
        directory_copy_plan(source, target, source_exists, target_exists, walked) == Ok::<
            ExecutionView,
            OperationErrorView,
        >(
            settled(
                if !source_exists {
                    OperationResult::Skipped
                } else {
                    OperationResult::Exists
                },
            ),
        ),
        settled(OperationResult::Skipped).changes_nothing(),
        settled(OperationResult::Exists).changes_nothing(),
{
}

/// An overwrite does not look at the target: with the source there, it
/// copies the source to the target as its last action, whether the target
/// was there or not, and the outcome tells the two cases apart.
pub proof fn law_overwrite_always_copies(source: Seq<char>, target: Seq<char>, target_exists: bool)
    ensures
        overwrite_file_plan(source, target, true).prepare.last() == (ActionView::CopyFile {
            source,
            target,
        }),
        file_overwrite_plan(source, target, true, target_exists).prepare
            == overwrite_file_plan(source, target, true).prepare,
        file_overwrite_plan(source, target, true, true).result == OperationResult::Overwritten,
        file_overwrite_plan(source, target, true, false).result == OperationResult::Created,
{
}

/// The entry that stands for a transferable item of a walk: it goes where
/// the item is, relative to the root, and is a link where the item is one.
pub open spec fn entry_for(source: Seq<char>, target: Seq<char>, item: WalkedView) -> FileEntryView {
    match item {
        WalkedView::Entry { path, kind } => FileEntryView {
            source: path,
            target: match without_prefix(path, source) {
                Some(relative) => joined(target, relative),
                None => target,
            },
            is_symlink: kind == EntryKind::Symlink,
        },
        WalkedView::Failed { .. } => FileEntryView { source, target, is_symlink: false },
    }
}

/// An enumeration that succeeds is complete: it lists every item of the
/// walk that is no directory and not the root, once, in the order of the
/// walk, at the place that the item has relative to the root; so it lists
/// as many entries as the count of the directory says.
pub proof fn law_enumeration_is_complete(source: Seq<char>, target: Seq<char>, walked: Seq<WalkedView>)
    requires
        enumerated(source, target, walked) is Ok,
    ensures
        enumerated(source, target, walked)->Ok_0 == walked.filter(
            |item: WalkedView| is_transferable(source, item),
        ).map_values(|item: WalkedView| entry_for(source, target, item)),
        enumerated(source, target, walked)->Ok_0.len() == files_in(source, walked),
    decreases walked.len(),
{
    let wanted = |item: WalkedView| is_transferable(source, item);
    let entry = |item: WalkedView| entry_for(source, target, item);
    if walked.len() == 0 {
        assert(walked.filter(wanted) =~= Seq::<WalkedView>::empty()) by {
            walked.lemma_filter_len(wanted);
        }
        assert(enumerated(source, target, walked)->Ok_0 =~= walked.filter(wanted).map_values(
            entry,
        ));
    } else {
        let front = walked.drop_last();
        law_enumeration_is_complete(source, target, front);
        assert(front.push(walked.last()) =~= walked);
        front.lemma_filter_push(walked.last(), wanted);
        assert(enumerated(source, target, walked)->Ok_0 =~= walked.filter(wanted).map_values(
            entry,
        ));
    }
}

/// A directory copy transfers exactly the files that the count of the
/// directory counts, and reports that many as copied.
pub proof fn law_directory_copy_is_complete(source: Seq<char>, target: Seq<char>, walked: Seq<WalkedView>)
    requires
        copy_directory_plan(source, target, true, false, walked) is Ok,
    ensures
        copy_directory_plan(source, target, true, false, walked)->Ok_0.entries.len() == files_in(
            source,
            walked,
        ),
        copy_directory_plan(source, target, true, false, walked)->Ok_0.result
            == (CopyResult::Created { files_copied: files_in(source, walked) as u64 }),
{
    law_enumeration_is_complete(source, target, walked);
}

/// The distinct directories among `parents` are listed without
/// repetition, and they are exactly the directories among `parents`.
pub proof fn law_distinct_directories_are_exact(parents: Seq<Option<Seq<char>>>)
    ensures
        distinct(parents).no_duplicates(),
        forall|i: int|
            0 <= i < parents.len() && (#[trigger] parents[i]) is Some ==> distinct(
                parents,
            ).contains(parents[i]->0),
        forall|dir: Seq<char>| #[trigger]
            distinct(parents).contains(dir) ==> exists|i: int|
                0 <= i < parents.len() && #[trigger] parents[i] == Some(dir),
    decreases parents.len(),
{
    if parents.len() > 0 {
        let front = parents.drop_last();
        let before = distinct(front);
        let after = distinct(parents);
        law_distinct_directories_are_exact(front);
        assert forall|i: int| 0 <= i < parents.len() && (#[trigger] parents[i]) is Some implies after.contains(
        parents[i]->0) by {
            let dir = parents[i]->0;
            if i < parents.len() - 1 {
                assert(front[i] == parents[i]);
                assert(before.contains(dir));
                let j = choose|j: int| 0 <= j < before.len() && before[j] == dir;
                assert(after[j] == dir);
            } else {
                if before.contains(dir) {
                } else {
                    assert(after[after.len() - 1] == dir);
                }
            }
        }
        assert forall|dir: Seq<char>| #[trigger] after.contains(dir) implies exists|i: int|
            0 <= i < parents.len() && #[trigger] parents[i] == Some(dir) by {
            if before.contains(dir) {
                let i = choose|i: int| 0 <= i < front.len() && #[trigger] front[i] == Some(dir);
                assert(parents[i] == front[i]);
            } else {
                let j = choose|j: int| 0 <= j < after.len() && after[j] == dir;
                assert(j == after.len() - 1);
                assert(parents[parents.len() - 1] == Some(dir));
            }
        }
    }
}

/// Every directory that will hold a transferred file is created before
/// the transfer, and none is created twice.
pub proof fn law_parents_are_prepared(entries: Seq<FileEntryView>)
    ensures
        parent_directories(entries).no_duplicates(),
        forall|i: int|
            0 <= i < entries.len() && parent_of(#[trigger] entries[i].target) is Some
                ==> parent_directories(entries).contains(parent_of(entries[i].target)->0),
        forall|dir: Seq<char>| #[trigger]
            parent_directories(entries).contains(dir) ==> exists|i: int|
                0 <= i < entries.len() && parent_of(#[trigger] entries[i].target) == Some(dir),
{
    let parents = parents_of(entries);
    law_distinct_directories_are_exact(parents);
    assert forall|i: int|
        0 <= i < entries.len() && parent_of(#[trigger] entries[i].target) is Some implies parent_directories(
        entries,
    ).contains(parent_of(entries[i].target)->0) by {
        assert(parents[i] == parent_of(entries[i].target));
    }
    assert forall|dir: Seq<char>| #[trigger]
        parent_directories(entries).contains(dir) implies exists|i: int|
        0 <= i < entries.len() && parent_of(#[trigger] entries[i].target) == Some(dir) by {
        let i = choose|i: int| 0 <= i < parents.len() && #[trigger] parents[i] == Some(dir);
        assert(parent_of(entries[i].target) == Some(dir));
    }
}

/// Planning a copy forecasts a skip with the right reason: "not found"
/// where the source is absent; "exists" where the source is there and the
/// target too; and no skip where the source is there and the target is
/// not.
pub proof fn law_copy_skip_reasons(
    label: Seq<char>,
    source: Seq<char>,
    target: Seq<char>,
    seen: SnapshotView,
)
    ensures
        !seen.status(source).exists ==> {
            &&& operation_of(OperationType::Copy, label, source, target, seen).will_skip
            &&& operation_of(OperationType::Copy, label, source, target, seen).skip_reason == Some(
                reason_not_found(),
            )
        },
        seen.status(source).exists && seen.status(target).exists ==> {
            &&& operation_of(OperationType::Copy, label, source, target, seen).will_skip
            &&& operation_of(OperationType::Copy, label, source, target, seen).skip_reason == Some(
                reason_exists(),
            )
        },
        seen.status(source).exists && !seen.status(target).exists ==> !operation_of(
            OperationType::Copy,
            label,
            source,
            target,
            seen,
        ).will_skip,
{
}

/// Planning an overwrite never skips because of the target: the
/// operation is skipped exactly where the source is absent, and then for
/// that reason.
pub proof fn law_overwrite_skips_only_without_source(
    label: Seq<char>,
    source: Seq<char>,
    target: Seq<char>,
    seen: SnapshotView,
)
    ensures
        operation_of(OperationType::Overwrite, label, source, target, seen).will_skip
            == !seen.status(source).exists,
        operation_of(OperationType::Overwrite, label, source, target, seen).skip_reason != Some(
            reason_exists(),
        ),
{
    law_reasons_differ();
}

/// What is planned for a declared path is the operation on the place that
/// the path has under either root: the root joined with one and the same
/// label.
pub proof fn law_declared_paths_are_planned_where_they_resolve(
    kind: OperationType,
    main: Seq<char>,
    target_root: Seq<char>,
    dir: Seq<char>,
    declared: Seq<char>,
    seen: SnapshotView,
)
    ensures
        planned_declared(kind, main, target_root, dir, declared, seen) == operation_of(
            kind,
            label_of(dir, declared),
            joined(main, label_of(dir, declared)),
            joined(target_root, label_of(dir, declared)),
            seen,
        ),
{
}

/// Applying a configuration resolves every declared path as planning
/// does: an item is shown under the label, and works on the places, of
/// the operation that is planned for the same declaration, whatever was
/// seen of the disk.
pub proof fn law_apply_resolves_as_the_plan_does(
    kind: OperationType,
    main: Seq<char>,
    target_root: Seq<char>,
    dir: Seq<char>,
    declared: Seq<char>,
    template: TemplateMappingView,
    pattern: Seq<char>,
    found: Seq<char>,
    seen: SnapshotView,
)
    ensures
        same_place(
            declared_item(kind, main, target_root, dir, declared),
            planned_declared(kind, main, target_root, dir, declared, seen),
        ),
        same_place(
            template_item(main, target_root, dir, template),
            planned_template(main, target_root, dir, template, seen),
        ),
        match_item(main, target_root, dir, pattern, found) is Some == planned_match(
            main,
            target_root,
            dir,
            pattern,
            found,
            seen,
        ) is Some,
        match_item(main, target_root, dir, pattern, found) is Some ==> same_place(
            match_item(main, target_root, dir, pattern, found)->0,
            planned_match(main, target_root, dir, pattern, found, seen)->0,
        ),
        is_root_relative(declared) ==> {
            &&& declared_item(kind, main, target_root, dir, declared).path == after_separator(
                declared,
            )
            &&& declared_item(kind, main, target_root, dir, declared).source == joined(
                main,
                after_separator(declared),
            )
            &&& declared_item(kind, main, target_root, dir, declared).target == joined(
                target_root,
                after_separator(declared),
            )
        },
{
}

/// Whether an item and a planned operation are of the same kind, are
/// shown under the same label and work on the same two places.
pub open spec fn same_place(item: ApplyItemView, operation: PlannedOperationView) -> bool {
    &&& item.operation_type == operation.operation_type
    &&& item.path == operation.display_path
    &&& item.source == operation.source
    &&& item.target == operation.target
}

/// The two sides of a template are resolved independently: the source
/// under the main working copy by the leading separator of the source
/// alone, the target under the new working copy by that of the target
/// alone, and the label joins the labels of the two.
pub proof fn law_template_sides_are_independent(
    main: Seq<char>,
    target_root: Seq<char>,
    dir: Seq<char>,
    template: TemplateMappingView,
    other: TemplateMappingView,
    seen: SnapshotView,
)
    ensures
        planned_template(main, target_root, dir, template, seen).source == location_of(
            main,
            dir,
            template.source,
        ),
        planned_template(main, target_root, dir, template, seen).target == location_of(
            target_root,
            dir,
            template.target,
        ),
        other.source == template.source ==> planned_template(
            main,
            target_root,
            dir,
            other,
            seen,
        ).source == planned_template(main, target_root, dir, template, seen).source,
        other.target == template.target ==> planned_template(
            main,
            target_root,
            dir,
            other,
            seen,
        ).target == planned_template(main, target_root, dir, template, seen).target,
        is_root_relative(template.source) && !is_root_relative(template.target) ==> {
            &&& planned_template(main, target_root, dir, template, seen).source == joined(
                main,
                after_separator(template.source),
            )
            &&& planned_template(main, target_root, dir, template, seen).target == joined(
                target_root,
                joined(dir, template.target),
            )
            &&& planned_template(main, target_root, dir, template, seen).display_path
                == after_separator(template.source) + " -> "@ + joined(dir, template.target)
        },
{
}

/// A declared path lands at the same place in both trees: its location
/// under either root is the root joined with one and the same label.
pub proof fn law_resolution_is_symmetric(
    main: Seq<char>,
    target_root: Seq<char>,
    dir: Seq<char>,
    declared: Seq<char>,
)
    ensures
        location_of(main, dir, declared) == joined(main, label_of(dir, declared)),
        location_of(target_root, dir, declared) == joined(target_root, label_of(dir, declared)),
{
}

/// A planned operation is well formed when it is skipped exactly where a
/// reason is given, the reason is one of the two, and a skipped operation
/// counts no files.
pub open spec fn well_formed(operation: PlannedOperationView) -> bool {
    &&& operation.will_skip == (operation.skip_reason is Some)
    &&& operation.skip_reason is Some ==> operation.skip_reason == Some(reason_not_found())
        || operation.skip_reason == Some(reason_exists())
    &&& operation.operation_type == OperationType::Symlink ==> operation.file_count == 0
        && !operation.is_directory
    &&& !operation.is_directory && !operation.will_skip && operation.operation_type
        != OperationType::Symlink ==> operation.file_count == 1
}

/// The place of a kind in the order of planning.
pub open spec fn rank(kind: OperationType) -> int {
    match kind {
        OperationType::Symlink => 0,
        OperationType::Copy => 1,
        OperationType::Overwrite => 2,
        OperationType::CopyGlob => 3,
        OperationType::Template => 4,
        OperationType::Unstaged => 5,
    }
}

proof fn lemma_found_are_glob_copies(
    main: Seq<char>,
    target_root: Seq<char>,
    dir: Seq<char>,
    pattern: Seq<char>,
    found: Seq<Seq<char>>,
    seen: SnapshotView,
)
    ensures
        forall|i: int|
            0 <= i < planned_found(main, target_root, dir, pattern, found, seen).len() ==> {
                let operation = #[trigger] planned_found(
                    main,
                    target_root,
                    dir,
                    pattern,
                    found,
                    seen,
                )[i];
                well_formed(operation) && operation.operation_type == OperationType::CopyGlob
            },
    decreases found.len(),
{
    if found.len() > 0 {
        lemma_found_are_glob_copies(main, target_root, dir, pattern, found.drop_last(), seen);
    }
}

proof fn lemma_patterns_are_glob_copies(
    main: Seq<char>,
    target_root: Seq<char>,
    dir: Seq<char>,
    patterns: Seq<Seq<char>>,
    seen: SnapshotView,
)
    ensures
        forall|i: int|
            0 <= i < planned_patterns(main, target_root, dir, patterns, seen).len() ==> {
                let operation = #[trigger] planned_patterns(
                    main,
                    target_root,
                    dir,
                    patterns,
                    seen,
                )[i];
                well_formed(operation) && operation.operation_type == OperationType::CopyGlob
            },
    decreases patterns.len(),
{
    if patterns.len() > 0 {
        lemma_patterns_are_glob_copies(main, target_root, dir, patterns.drop_last(), seen);
        lemma_found_are_glob_copies(
            main,
            target_root,
            dir,
            patterns.last(),
            seen.expansion(crate::plan::full_pattern_of(main, dir, patterns.last())),
            seen,
        );
    }
}

/// Every operation of a plan is well formed, and the plan runs through
/// the kinds in their fixed order: links, copies, overwrites, glob
/// matches, templates.
pub proof fn law_plans_are_ordered_and_well_formed(
    config: LoadedConfigView,
    main: Seq<char>,
    target_root: Seq<char>,
    seen: SnapshotView,
)
    ensures
        forall|i: int|
            0 <= i < planned_operations(config, main, target_root, seen).len() ==> well_formed(
                #[trigger] planned_operations(config, main, target_root, seen)[i],
            ),
        forall|i: int, j: int|
            0 <= i <= j < planned_operations(config, main, target_root, seen).len() ==> rank(
                (#[trigger] planned_operations(config, main, target_root, seen)[i]).operation_type,
            ) <= rank(
                (#[trigger] planned_operations(config, main, target_root, seen)[j]).operation_type,
            ),
{
    let dir = relative_dir(config.config_dir, main);
    let plan = planned_operations(config, main, target_root, seen);
    lemma_patterns_are_glob_copies(main, target_root, dir, config.config.copy_glob, seen);
    let a = config.config.symlinks.len() as int;
    let b = a + config.config.copy.len();
    let c = b + config.config.overwrite.len();
    let d = c + planned_patterns(main, target_root, dir, config.config.copy_glob, seen).len();
    assert forall|i: int| 0 <= i < plan.len() implies well_formed(#[trigger] plan[i]) && rank(
        plan[i].operation_type,
    ) == (if i < a {
        0int
    } else if i < b {
        1
    } else if i < c {
        2
    } else if i < d {
        3
    } else {
        4
    }) by {
        if i < a {
            assert(plan[i] == planned_declared(
                OperationType::Symlink,
                main,
                target_root,
                dir,
                config.config.symlinks[i],
                seen,
            ));
        } else if i < b {
            assert(plan[i] == planned_declared(
                OperationType::Copy,
                main,
                target_root,
                dir,
                config.config.copy[i - a],
                seen,
            ));
        } else if i < c {
            assert(plan[i] == planned_declared(
                OperationType::Overwrite,
                main,
                target_root,
                dir,
                config.config.overwrite[i - b],
                seen,
            ));
        } else if i < d {
            assert(plan[i] == planned_patterns(
                main,
                target_root,
                dir,
                config.config.copy_glob,
                seen,
            )[i - c]);
        } else {
            assert(plan[i] == planned_template(
                main,
                target_root,
                dir,
                config.config.templates[i - d],
                seen,
            ));
        }
    }
}

/// An operation that was planned to be skipped is executed without any
/// change, whatever is found at its source and target by then.
pub proof fn law_skipped_operations_change_nothing(
    operation: PlannedOperationView,
    source: PathStatus,
    target: PathStatus,
    walked: Seq<WalkedView>,
)
    requires
        operation.will_skip,
    ensures
        execution_of(operation, source, target, walked) is Ok,
        execution_of(operation, source, target, walked)->Ok_0.changes_nothing(),
        execution_of(operation, source, target, walked)->Ok_0.result == (if operation.skip_reason
            == Some(reason_exists()) {
            OperationResult::Exists
        } else {
            OperationResult::Skipped
        }),
{
}

/// The outcome that a well-formed operation forecasts for the state in
/// which its source and target are found: that of its reason where it is
/// skipped; for a link, a creation; for a directory, a creation unless
/// the target is there; for a file, a creation, or an overwrite where the
/// kind copies over a target that is there.
pub open spec fn forecast(operation: PlannedOperationView, target: PathStatus) -> OperationResult {
    if operation.will_skip {
        if operation.skip_reason == Some(reason_exists()) {
            OperationResult::Exists
        } else {
            OperationResult::Skipped
        }
    } else if operation.operation_type == OperationType::Symlink {
        OperationResult::Created
    } else if operation.is_directory {
        if target.exists {
            OperationResult::Exists
        } else {
            OperationResult::Created
        }
    } else if copies_if_absent(operation.operation_type) || !target.exists {
        OperationResult::Created
    } else {
        OperationResult::Overwritten
    }
}

/// Forecast and outcome agree on a disk that does not change in between:
/// executing a planned operation against the state that the planner saw
/// ends as the plan forecast, provided that the walk of a directory does
/// not fail. A glob match and a file with uncommitted changes are
/// planned only for a source that was found, so that theirs is taken to
/// be there.
pub proof fn law_forecast_and_outcome_agree(
    kind: OperationType,
    label: Seq<char>,
    source: Seq<char>,
    target: Seq<char>,
    seen: SnapshotView,
    walked: Seq<WalkedView>,
)
    requires
        kind == OperationType::CopyGlob || kind == OperationType::Unstaged ==> seen.status(
            source,
        ).exists,
    ensures
        agrees(operation_of(kind, label, source, target, seen), seen, walked),
{
    law_reasons_differ();
}

/// Whether executing `operation` against the state recorded in `seen`
/// ends, if it does not fail, as the operation forecasts.
pub open spec fn agrees(operation: PlannedOperationView, seen: SnapshotView, walked: Seq<WalkedView>) -> bool {
    execution_of(
        operation,
        seen.status(operation.source),
        seen.status(operation.target),
        walked,
    ) matches Ok(execution) ==> execution.result == forecast(
        operation,
        seen.status(operation.target),
    )
}

/// Overwrite always wins: whatever is at the target before, once the
/// work of an overwrite is carried out, the target holds the bytes that
/// the source held.
pub proof fn law_overwrite_leaves_the_bytes_of_the_source(
    before: Disk,
    after: Disk,
    source: Seq<char>,
    target: Seq<char>,
    bytes: Seq<u8>,
)
    requires
        before.contains_key(source),
        before[source] == Node::File(bytes),
        carries_out(before, overwrite_file_plan(source, target, true).prepare, after),
    ensures
        after.contains_key(target),
        after[target] == Node::File(bytes),
{
    let actions = overwrite_file_plan(source, target, true).prepare;
    let disks = choose|disks: Seq<Disk>| #[trigger] leads(disks, before, actions, after);
    let copy = actions.len() - 1;
    assert(actions[copy] == ActionView::CopyFile { source, target });
    assert(performs(disks[copy], actions[copy], disks[copy + 1]));
    if copy > 0 {
        assert(performs(disks[0], actions[0], disks[1]));
        assert(actions[0] is CreateDirAll);
    }
}

/// The work of an overwrite can be carried out wherever the source is a
/// file and nothing but a directory stands where the parent of the target
/// is to be.
pub proof fn law_overwrite_can_be_carried_out(
    before: Disk,
    source: Seq<char>,
    target: Seq<char>,
    bytes: Seq<u8>,
) -> (after: Disk)
    requires
        before.contains_key(source),
        before[source] == Node::File(bytes),
        parent_of(target) is Some && before.contains_key(parent_of(target)->0)
            ==> before[parent_of(target)->0] is Directory,
    ensures
        carries_out(before, overwrite_file_plan(source, target, true).prepare, after),
{
    let actions = overwrite_file_plan(source, target, true).prepare;
    match parent_of(target) {
        Some(dir) => {
            let prepared = if before.contains_key(dir) {
                before
            } else {
                before.insert(dir, Node::Directory)
            };
            let after = prepared.insert(target, Node::File(bytes));
            let disks = seq![before, prepared, after];
            assert(actions[0] == ActionView::CreateDirAll { path: dir });
            assert(actions[1] == ActionView::CopyFile { source, target });
            assert(performs(disks[0], actions[0], disks[1]));
            assert(performs(disks[1], actions[1], disks[2]));
            assert(leads(disks, before, actions, after));
            after
        },
        None => {
            let after = before.insert(target, Node::File(bytes));
            let disks = seq![before, after];
            assert(actions[0] == ActionView::CopyFile { source, target });
            assert(performs(disks[0], actions[0], disks[1]));
            assert(leads(disks, before, actions, after));
            after
        },
    }
}

/// Copy is idempotent: once the work of a copy is carried out, the target
/// holds the bytes of the source; a second copy, which finds the target
/// there, has no work, so that the disk stays as the first copy left it.
pub proof fn law_second_copy_leaves_the_first(
    before: Disk,
    after: Disk,
    later: Disk,
    source: Seq<char>,
    target: Seq<char>,
    bytes: Seq<u8>,
    source_exists: bool,
)
    requires
        before.contains_key(source),
        before[source] == Node::File(bytes),
        carries_out(before, copy_file_plan(source, target, true, false).prepare, after),
        carries_out(after, copy_file_plan(source, target, source_exists, true).prepare, later),
    ensures
        after.contains_key(target),
        after[target] == Node::File(bytes),
        copy_file_plan(source, target, source_exists, true).entries.len() == 0,
        later == after,
{
    assert(copy_file_plan(source, target, true, false).prepare == overwrite_file_plan(
        source,
        target,
        true,
    ).prepare);
    law_overwrite_leaves_the_bytes_of_the_source(before, after, source, target, bytes);
    let idle = copy_file_plan(source, target, source_exists, true).prepare;
    let disks = choose|disks: Seq<Disk>| #[trigger] leads(disks, after, idle, later);
    assert(idle.len() == 0);
}

/// The transfer of an entry leaves at its target what is at its source:
/// the same bytes for a file, a link to the same place for a link.
pub proof fn law_transfer_keeps_content(before: Disk, after: Disk, entry: FileEntryView)
    requires
        performs(before, transfer_of(entry), after),
    ensures
        after.contains_key(entry.target),
        after[entry.target] == before[entry.source],
        entry.is_symlink ==> before[entry.source] is Link,
        !entry.is_symlink ==> before[entry.source] is File,
{
}

proof fn lemma_other_places_stay(
    disks: Seq<Disk>,
    before: Disk,
    after: Disk,
    entries: Seq<FileEntryView>,
    path: Seq<char>,
    k: int,
)
    requires
        leads(disks, before, transfers_of(entries), after),
        0 <= k <= entries.len(),
        forall|i: int| 0 <= i < entries.len() ==> (#[trigger] entries[i]).target != path,
    ensures
        disks[k].contains_key(path) == before.contains_key(path),
        before.contains_key(path) ==> disks[k][path] == before[path],
    decreases k,
{
    let actions = transfers_of(entries);
    if k > 0 {
        let step = k - 1;
        lemma_other_places_stay(disks, before, after, entries, path, step);
        assert(performs(disks[step], actions[step], disks[step + 1]));
        assert(actions[step] == transfer_of(entries[step]));
        assert(entries[step].target != path);
    }
}

proof fn lemma_target_stays(
    disks: Seq<Disk>,
    before: Disk,
    after: Disk,
    entries: Seq<FileEntryView>,
    i: int,
    k: int,
)
    requires
        go_to_fresh_places(entries),
        leads(disks, before, transfers_of(entries), after),
        0 <= i < k <= entries.len(),
    ensures
        disks[i].contains_key(entries[i].source),
        disks[k].contains_key(entries[i].target),
        disks[k][entries[i].target] == disks[i][entries[i].source],
    decreases k,
{
    let actions = transfers_of(entries);
    let step = k - 1;
    assert(performs(disks[step], actions[step], disks[step + 1]));
    assert(actions[step] == transfer_of(entries[step]));
    if step > i {
        lemma_target_stays(disks, before, after, entries, i, step);
        assert(entries[i].target != entries[step].target);
    }
}

/// A directory copy is exhaustive and exact: once every entry is
/// transferred, in whatever order the entries are listed, each target
/// holds an exact copy of its source, a file of the same bytes for a file
/// and a link to the same place for a link; every source, and everything
/// else that is no target, is as it was. This holds of entries that go to
/// fresh places; of a listing that sends two entries to one place, such
/// as one that names a file twice in two spellings, it does not.
pub proof fn law_directory_copy_keeps_every_content(
    before: Disk,
    after: Disk,
    entries: Seq<FileEntryView>,
)
    requires
        go_to_fresh_places(entries),
        carries_out(before, transfers_of(entries), after),
    ensures
        forall|i: int|
            0 <= i < entries.len() ==> copied_exactly(before, after, #[trigger] entries[i]),
        untouched_elsewhere(before, after, entries),
{
    let actions = transfers_of(entries);
    let count = entries.len() as int;
    let disks = choose|disks: Seq<Disk>| #[trigger] leads(disks, before, actions, after);
    assert forall|i: int| 0 <= i < entries.len() implies copied_exactly(
        before,
        after,
        #[trigger] entries[i],
    ) by {
        let source = entries[i].source;
        lemma_target_stays(disks, before, after, entries, i, count);
        assert forall|j: int| 0 <= j < entries.len() implies (#[trigger] entries[j]).target
            != source by {}
        lemma_other_places_stay(disks, before, after, entries, source, i);
        lemma_other_places_stay(disks, before, after, entries, source, count);
        assert(performs(disks[i], actions[i], disks[i + 1]));
        assert(actions[i] == transfer_of(entries[i]));
    }
    assert forall|path: Seq<char>| #[trigger]
        before.contains_key(path) && !is_target(entries, path) implies after.contains_key(path)
        && after[path] == before[path] by {
        assert forall|j: int| 0 <= j < entries.len() implies (#[trigger] entries[j]).target
            != path by {}
        lemma_other_places_stay(disks, before, after, entries, path, count);
    }
}

/// Entries that go to places that are new on a disk, each to its own,
/// go to fresh places.
pub proof fn law_new_places_are_fresh(disk: Disk, entries: Seq<FileEntryView>)
    requires
        go_to_new_places(disk, entries),
    ensures
        go_to_fresh_places(entries),
{
}

proof fn lemma_creations_add_directories(
    disks: Seq<Disk>,
    before: Disk,
    after: Disk,
    directories: Seq<Seq<char>>,
    k: int,
)
    requires
        leads(disks, before, creations(directories), after),
        0 <= k <= directories.len(),
    ensures
        keeps(before, disks[k]),
        forall|path: Seq<char>| #[trigger]
            disks[k].contains_key(path) && !before.contains_key(path)
                ==> disks[k][path] is Directory,
    decreases k,
{
    if k > 0 {
        let step = k - 1;
        lemma_creations_add_directories(disks, before, after, directories, step);
        assert(performs(disks[step], creations(directories)[step], disks[step + 1]));
    }
}

/// A directory copy leaves at every target an exact copy of what was at
/// its source before the copy began, and leaves everything else that was
/// there as it was: the directories that are prepared first change
/// nothing that is there, and the entries that are transferred then, in
/// whatever order they are listed, each put at the target what the source
/// held. As above, this holds of entries that go to fresh places.
pub proof fn law_directory_copy_is_exact(
    before: Disk,
    prepared: Disk,
    after: Disk,
    target: Seq<char>,
    entries: Seq<FileEntryView>,
)
    requires
        entries.len() > 0,
        go_to_fresh_places(entries),
        carries_out(before, directory_transfer(target, entries).prepare, prepared),
        carries_out(prepared, transfers_of(directory_transfer(target, entries).entries), after),
    ensures
        forall|i: int|
            0 <= i < entries.len() ==> copied_exactly(before, after, #[trigger] entries[i]),
        untouched_elsewhere(before, after, entries),
{
    let directories = parent_directories(entries);
    let disks = choose|disks: Seq<Disk>| #[trigger]
        leads(disks, before, creations(directories), prepared);
    lemma_creations_add_directories(disks, before, prepared, directories, directories.len() as int);
    law_directory_copy_keeps_every_content(prepared, after, entries);
    assert forall|i: int| 0 <= i < entries.len() implies copied_exactly(
        before,
        after,
        #[trigger] entries[i],
    ) by {
        // What is transferred is a file or a link, and the preparation adds directories only.
        assert(copied_exactly(prepared, after, entries[i]));
        assert(prepared.contains_key(entries[i].source));
        assert(!(prepared[entries[i].source] is Directory));
    }
    assert forall|path: Seq<char>| #[trigger]
        before.contains_key(path) && !is_target(entries, path) implies after.contains_key(path)
        && after[path] == before[path] by {
        assert(prepared.contains_key(path) && prepared[path] == before[path]);
    }
}

/// A link that is created points to the source itself: once the steps of
/// a link creation are taken, the target is a link to the source as it
/// was given, whatever occupied the target before.
pub proof fn law_created_link_points_to_the_source(
    before: Disk,
    after: Disk,
    source: Seq<char>,
    target: Seq<char>,
    target_status: PathStatus,
)
    requires
        !target_status.is_symlink,
        takes_all(before, symlink_plan(source, target, true, target_status).steps, after),
    ensures
        symlink_plan(source, target, true, target_status).result == OperationResult::Created,
        after.contains_key(target),
        after[target] == Node::Link(source),
{
    let steps = symlink_plan(source, target, true, target_status).steps;
    let disks = choose|disks: Seq<Disk>| #[trigger] follows(disks, before, steps, after);
    let last = steps.len() - 1;
    assert(steps[last] == crate::execute::StepView::Symlink { source, target });
    assert(takes(disks[last], steps[last], disks[last + 1]));
}

} // verus!
