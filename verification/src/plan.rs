//! The operation planner: from a configuration and what was observed of
//! the two trees to the ordered list of operations, each with its paths,
//! its size and the decision whether it will be skipped. Planning changes
//! nothing.

use crate::apply::ApplyConfigOptions;
use crate::config::LoadedConfig;
use crate::config::LoadedConfigView;
use crate::config::TemplateMapping;
use crate::config::TemplateMappingView;
use crate::config::templates_of;
use crate::observe::Snapshot;
use crate::observe::SnapshotView;
use crate::outcome::OperationError;
use crate::outcome::OperationErrorView;
use crate::paths::after_separator;
use crate::paths::is_root_relative;
use crate::paths::label_of;
use crate::paths::location_of;
use crate::paths::resolve_path;
use crate::paths::strip_root_marker;
use crate::text::optional_text;
use crate::text::texts;
use crate::trusted::fault_of;
use crate::trusted::join;
use crate::trusted::joined;
use crate::trusted::pattern_fault;
use crate::trusted::strip_prefix;
use crate::trusted::without_prefix;
use vstd::prelude::*;
use vstd::string::*;

verus! {

/// The kinds of operation, in the order in which they are planned.
#[derive(Debug, Clone, Copy, PartialEq, Eq, Structural)]
pub enum OperationType {
    /// Create a link.
    Symlink,
    /// Copy a file or directory unless the target is present.
    Copy,
    /// Copy a file or directory over the target.
    Overwrite,
    /// Copy a file that a glob pattern matched.
    CopyGlob,
    /// Copy a template.
    Template,
    /// Copy a file with uncommitted changes.
    Unstaged,
}

impl OperationType {
    /// The word for the kind.
    pub open spec fn word(self) -> Seq<char> {
        match self {
            OperationType::Symlink => "symlink"@,
            OperationType::Copy => "copy"@,
            OperationType::Overwrite => "overwrite"@,
            OperationType::CopyGlob => "copy"@,
            OperationType::Template => "template"@,
            OperationType::Unstaged => "unstaged"@,
        }
    }

    /// The word for the kind, as it is shown.
    pub fn name(&self) -> (out: String)
        ensures
            out@ == self.word(),
    {
        match self {
            OperationType::Symlink => String::from_str("symlink"),
            OperationType::Copy => String::from_str("copy"),
            OperationType::Overwrite => String::from_str("overwrite"),
            OperationType::CopyGlob => String::from_str("copy"),
            OperationType::Template => String::from_str("template"),
            OperationType::Unstaged => String::from_str("unstaged"),
        }
    }
}

/// One operation as planned.
#[derive(Debug)]
pub struct PlannedOperation {
    /// Label under which the operation is shown.
    pub display_path: String,
    /// Kind of operation.
    pub operation_type: OperationType,
    /// Absolute path of the source.
    pub source: String,
    /// Absolute path of the target.
    pub target: String,
    /// Number of files: none for a link, one for a single file, and for a
    /// directory the files counted in it.
    pub file_count: u64,
    /// Whether the source is a directory.
    pub is_directory: bool,
    /// Whether the operation will be skipped.
    pub will_skip: bool,
    /// Why it will be skipped: `"not found"` or `"exists"`.
    pub skip_reason: Option<String>,
}

/// Mathematical form of a [`PlannedOperation`].
pub ghost struct PlannedOperationView {
    pub display_path: Seq<char>,
    pub operation_type: OperationType,
    pub source: Seq<char>,
    pub target: Seq<char>,
    pub file_count: u64,
    pub is_directory: bool,
    pub will_skip: bool,
    pub skip_reason: Option<Seq<char>>,
}

impl View for PlannedOperation {
    type V = PlannedOperationView;

    open spec fn view(&self) -> PlannedOperationView {
        PlannedOperationView {
            display_path: self.display_path@,
            operation_type: self.operation_type,
            source: self.source@,
            target: self.target@,
            file_count: self.file_count,
            is_directory: self.is_directory,
            will_skip: self.will_skip,
            skip_reason: optional_text(self.skip_reason),
        }
    }
}

impl Clone for PlannedOperation {
    fn clone(&self) -> (out: PlannedOperation)
        ensures
            out@ == self@,
    {
        let skip_reason = match &self.skip_reason {
            Some(reason) => Some(reason.clone()),
            None => None,
        };
        PlannedOperation {
            display_path: self.display_path.clone(),
            operation_type: self.operation_type,
            source: self.source.clone(),
            target: self.target.clone(),
            file_count: self.file_count,
            is_directory: self.is_directory,
            will_skip: self.will_skip,
            skip_reason,
        }
    }
}

/// The views of a sequence of planned operations.
pub open spec fn operations_of(operations: Seq<PlannedOperation>) -> Seq<PlannedOperationView> {
    operations.map_values(|operation: PlannedOperation| operation@)
}

/// The reason given for skipping an operation whose source is absent.
pub open spec fn reason_not_found() -> Seq<char> {
    "not found"@
}

/// The reason given for skipping an operation whose target is present.
pub open spec fn reason_exists() -> Seq<char> {
    "exists"@
}

/// Why an operation is skipped, if it is: an absent source comes before a
/// present target.
pub open spec fn skip_reason_of(source_absent: bool, target_present: bool) -> Option<Seq<char>> {
    if source_absent {
        Some(reason_not_found())
    } else if target_present {
        Some(reason_exists())
    } else {
        None
    }
}

fn skip_reason(source_absent: bool, target_present: bool) -> (out: Option<String>)
    ensures
        optional_text(out) == skip_reason_of(source_absent, target_present),
{
    if source_absent {
        Some(String::from_str("not found"))
    } else if target_present {
        Some(String::from_str("exists"))
    } else {
        None
    }
}

/// The directory of a configuration relative to the main working copy, or
/// the directory itself where it does not lie under it.
pub open spec fn relative_dir(config_dir: Seq<char>, main: Seq<char>) -> Seq<char> {
    match without_prefix(config_dir, main) {
        Some(relative) => relative,
        None => config_dir,
    }
}

/// The directory of a configuration relative to the main working copy.
pub fn config_relative_dir(config_dir: &str, main: &str) -> (out: String)
    ensures
        out@ == relative_dir(config_dir@, main@),
{
    match strip_prefix(config_dir, main) {
        Some(relative) => relative,
        None => config_dir.to_owned(),
    }
}

/// The number of files of an operation on `source`: what was counted in
/// it where it is a directory, and one where it is not.
pub open spec fn sized(seen: SnapshotView, source: Seq<char>) -> u64 {
    if seen.status(source).is_dir {
        seen.facts(source).file_count
    } else {
        1
    }
}

/// Why an operation of `kind` from `source` to `target` is skipped, if it
/// is. An absent source skips every kind but a glob match and a file with
/// uncommitted changes, which are planned only for what was found. A
/// target that is there skips a copy, a glob match and a template; a
/// link is skipped also by a target that is a link to nothing; an
/// overwrite and a file with uncommitted changes are not skipped by any
/// target.
pub open spec fn reason_to_skip(
    kind: OperationType,
    source: Seq<char>,
    target: Seq<char>,
    seen: SnapshotView,
) -> Option<Seq<char>> {
    let absent = !seen.status(source).exists;
    let present = seen.status(target).exists;
    match kind {
        OperationType::Symlink => skip_reason_of(absent, seen.status(target).occupied()),
        OperationType::Copy => skip_reason_of(absent, present),
        OperationType::Overwrite => skip_reason_of(absent, false),
        OperationType::CopyGlob => skip_reason_of(false, present),
        OperationType::Template => skip_reason_of(absent, present),
        OperationType::Unstaged => None,
    }
}

/// Whether operations of `kind` work on whole directories: copies and
/// overwrites do.
pub open spec fn takes_directories(kind: OperationType) -> bool {
    kind == OperationType::Copy || kind == OperationType::Overwrite
}

/// The operation of `kind` from `source` to `target`, shown as `label`,
/// as the state of the two paths lets it be planned: skipped or not, and
/// where it is not skipped, a directory where its kind takes directories
/// and its source is one, with the files counted in it; one file
/// otherwise, and none for a link.
pub open spec fn operation_of(
    kind: OperationType,
    label: Seq<char>,
    source: Seq<char>,
    target: Seq<char>,
    seen: SnapshotView,
) -> PlannedOperationView {
    let reason = reason_to_skip(kind, source, target, seen);
    let is_directory = reason is None && takes_directories(kind) && seen.status(source).is_dir;
    PlannedOperationView {
        display_path: label,
        operation_type: kind,
        source,
        target,
        file_count: if kind == OperationType::Symlink {
            0
        } else if !takes_directories(kind) {
            1
        } else if reason is Some {
            0
        } else {
            sized(seen, source)
        },
        is_directory,
        will_skip: reason is Some,
        skip_reason: reason,
    }
}

/// The operation of `kind` planned for the declared path `declared`: the
/// operation on the places that the path resolves to under the two roots,
/// shown under its label.
pub open spec fn planned_declared(
    kind: OperationType,
    main: Seq<char>,
    target_root: Seq<char>,
    dir: Seq<char>,
    declared: Seq<char>,
    seen: SnapshotView,
) -> PlannedOperationView {
    operation_of(
        kind,
        label_of(dir, declared),
        location_of(main, dir, declared),
        location_of(target_root, dir, declared),
        seen,
    )
}

/// The label of a template: that of its source, an arrow, that of its
/// target.
pub open spec fn template_label(dir: Seq<char>, template: TemplateMappingView) -> Seq<char> {
    label_of(dir, template.source) + " -> "@ + label_of(dir, template.target)
}

/// The copy planned for a template. Its source is resolved under the main
/// working copy and its target under the new one, each by its own
/// leading separator.
pub open spec fn planned_template(
    main: Seq<char>,
    target_root: Seq<char>,
    dir: Seq<char>,
    template: TemplateMappingView,
    seen: SnapshotView,
) -> PlannedOperationView {
    operation_of(
        OperationType::Template,
        template_label(dir, template),
        location_of(main, dir, template.source),
        location_of(target_root, dir, template.target),
        seen,
    )
}

/// The directory in which a glob pattern is expanded: the main working
/// copy for a root-relative pattern, the directory of the configuration
/// under it for any other.
pub open spec fn search_dir_of(main: Seq<char>, dir: Seq<char>, pattern: Seq<char>) -> Seq<char> {
    if is_root_relative(pattern) {
        main
    } else {
        joined(main, dir)
    }
}

/// The pattern that is handed to the expansion: the declared pattern,
/// less its leading separator, joined to the search directory.
pub open spec fn full_pattern_of(main: Seq<char>, dir: Seq<char>, pattern: Seq<char>) -> Seq<char> {
    joined(
        search_dir_of(main, dir, pattern),
        if is_root_relative(pattern) {
            after_separator(pattern)
        } else {
            pattern
        },
    )
}

/// Where a match goes, `relative` being its path below the search
/// directory.
pub open spec fn match_target_of(
    target_root: Seq<char>,
    dir: Seq<char>,
    pattern: Seq<char>,
    relative: Seq<char>,
) -> Seq<char> {
    if is_root_relative(pattern) {
        joined(target_root, relative)
    } else {
        joined(joined(target_root, dir), relative)
    }
}

/// The label of a match: its path below the search directory, with the
/// directory of the configuration in front where the pattern is relative
/// to it and that directory is not the root.
pub open spec fn match_label_of(dir: Seq<char>, pattern: Seq<char>, relative: Seq<char>) -> Seq<char> {
    if is_root_relative(pattern) || dir.len() == 0 {
        relative
    } else {
        joined(dir, relative)
    }
}

/// The copy planned for one match of a pattern, if the match lies in the
/// search directory: one file, skipped where the target is present.
pub open spec fn planned_match(
    main: Seq<char>,
    target_root: Seq<char>,
    dir: Seq<char>,
    pattern: Seq<char>,
    found: Seq<char>,
    seen: SnapshotView,
) -> Option<PlannedOperationView> {
    match without_prefix(found, search_dir_of(main, dir, pattern)) {
        None => None,
        Some(relative) => Some(
            operation_of(
                OperationType::CopyGlob,
                match_label_of(dir, pattern, relative),
                found,
                match_target_of(target_root, dir, pattern, relative),
                seen,
            ),
        ),
    }
}

/// The copies planned for the files in `found`, in their order.
pub open spec fn planned_found(
    main: Seq<char>,
    target_root: Seq<char>,
    dir: Seq<char>,
    pattern: Seq<char>,
    found: Seq<Seq<char>>,
    seen: SnapshotView,
) -> Seq<PlannedOperationView>
    decreases found.len(),
{
    if found.len() == 0 {
        Seq::empty()
    } else {
        let before = planned_found(main, target_root, dir, pattern, found.drop_last(), seen);
        match planned_match(main, target_root, dir, pattern, found.last(), seen) {
            Some(operation) => before.push(operation),
            None => before,
        }
    }
}

/// The copies planned for a pattern: one for each match recorded of the
/// pattern that is expanded for it.
pub open spec fn planned_pattern(
    main: Seq<char>,
    target_root: Seq<char>,
    dir: Seq<char>,
    pattern: Seq<char>,
    seen: SnapshotView,
) -> Seq<PlannedOperationView> {
    planned_found(
        main,
        target_root,
        dir,
        pattern,
        seen.expansion(full_pattern_of(main, dir, pattern)),
        seen,
    )
}

/// The copies planned for `patterns`, pattern after pattern.
pub open spec fn planned_patterns(
    main: Seq<char>,
    target_root: Seq<char>,
    dir: Seq<char>,
    patterns: Seq<Seq<char>>,
    seen: SnapshotView,
) -> Seq<PlannedOperationView>
    decreases patterns.len(),
{
    if patterns.len() == 0 {
        Seq::empty()
    } else {
        planned_patterns(main, target_root, dir, patterns.drop_last(), seen) + planned_pattern(
            main,
            target_root,
            dir,
            patterns.last(),
            seen,
        )
    }
}

/// What is wrong with the first of `patterns` that cannot be read, if
/// one cannot.
pub open spec fn first_malformed(main: Seq<char>, dir: Seq<char>, patterns: Seq<Seq<char>>) -> Option<
    Seq<char>,
>
    decreases patterns.len(),
{
    if patterns.len() == 0 {
        None
    } else {
        match pattern_fault(full_pattern_of(main, dir, patterns.first())) {
            Some(message) => Some(message),
            None => first_malformed(main, dir, patterns.drop_first()),
        }
    }
}

/// The operations that a configuration comes to when every pattern can be
/// read: links, copies, overwrites, glob matches and templates, in this
/// order, and within each kind in the order of the declarations.
pub open spec fn planned_operations(
    config: LoadedConfigView,
    main: Seq<char>,
    target_root: Seq<char>,
    seen: SnapshotView,
) -> Seq<PlannedOperationView> {
    let dir = relative_dir(config.config_dir, main);
    config.config.symlinks.map_values(
        |declared: Seq<char>|
            planned_declared(OperationType::Symlink, main, target_root, dir, declared, seen),
    ) + config.config.copy.map_values(
        |declared: Seq<char>|
            planned_declared(OperationType::Copy, main, target_root, dir, declared, seen),
    ) + config.config.overwrite.map_values(
        |declared: Seq<char>|
            planned_declared(OperationType::Overwrite, main, target_root, dir, declared, seen),
    ) + planned_patterns(main, target_root, dir, config.config.copy_glob, seen)
        + config.config.templates.map_values(
        |template: TemplateMappingView| planned_template(main, target_root, dir, template, seen),
    )
}

/// The plan of a configuration: the failure of the first pattern that
/// cannot be read, or else the planned operations.
pub open spec fn plan_of(
    config: LoadedConfigView,
    main: Seq<char>,
    target_root: Seq<char>,
    seen: SnapshotView,
) -> Result<Seq<PlannedOperationView>, OperationErrorView> {
    match first_malformed(main, relative_dir(config.config_dir, main), config.config.copy_glob) {
        Some(message) => Err(OperationErrorView::GlobError(message)),
        None => Ok(planned_operations(config, main, target_root, seen)),
    }
}

/// Plans the operation of `kind` from `source` to `target`, shown as
/// `label`, from what was seen of the two paths.
pub fn plan_operation(
    kind: OperationType,
    label: String,
    source: String,
    target: String,
    seen: &Snapshot,
) -> (out: PlannedOperation)
    ensures
        out@ == operation_of(kind, label@, source@, target@, seen@),
{
    let source_facts = seen.facts(source.as_str());
    let target_status = seen.status(target.as_str());
    let absent = !source_facts.status.exists;
    let present = target_status.exists;
    let skip_reason = match kind {
        OperationType::Symlink => skip_reason(absent, present || target_status.is_symlink),
        OperationType::Copy => skip_reason(absent, present),
        OperationType::Overwrite => skip_reason(absent, false),
        OperationType::CopyGlob => skip_reason(false, present),
        OperationType::Template => skip_reason(absent, present),
        OperationType::Unstaged => None,
    };
    let will_skip = skip_reason.is_some();
    let takes_directories = match kind {
        OperationType::Copy => true,
        OperationType::Overwrite => true,
        _ => false,
    };
    let is_symlink = match kind {
        OperationType::Symlink => true,
        _ => false,
    };
    let is_directory = !will_skip && takes_directories && source_facts.status.is_dir;
    let file_count: u64 = if is_symlink {
        0
    } else if !takes_directories {
        1
    } else if will_skip {
        0
    } else if is_directory {
        source_facts.file_count
    } else {
        1
    };
    PlannedOperation {
        display_path: label,
        operation_type: kind,
        source,
        target,
        file_count,
        is_directory,
        will_skip,
        skip_reason,
    }
}

/// Plans the operation of `kind` for one declared path.
pub fn plan_declared(
    kind: OperationType,
    main: &str,
    target_root: &str,
    dir: &str,
    declared: &str,
    seen: &Snapshot,
) -> (out: PlannedOperation)
    ensures
        out@ == planned_declared(kind, main@, target_root@, dir@, declared@, seen@),
{
    let (source, label) = resolve_path(main, dir, declared);
    let (target, _) = resolve_path(target_root, dir, declared);
    plan_operation(kind, label, source, target, seen)
}

/// Plans the copy of one template.
pub fn plan_template(
    main: &str,
    target_root: &str,
    dir: &str,
    template: &TemplateMapping,
    seen: &Snapshot,
) -> (out: PlannedOperation)
    ensures
        out@ == planned_template(main@, target_root@, dir@, template@, seen@),
{
    let (source, source_label) = resolve_path(main, dir, template.source.as_str());
    let (target, target_label) = resolve_path(target_root, dir, template.target.as_str());
    let mut label = source_label;
    label.append(" -> ");
    label.append(target_label.as_str());
    plan_operation(OperationType::Template, label, source, target, seen)
}

/// The directory in which `pattern` is expanded, and the pattern to expand.
pub fn glob_search(main: &str, dir: &str, pattern: &str) -> (out: (String, String))
    ensures
        out.0@ == search_dir_of(main@, dir@, pattern@),
        out.1@ == full_pattern_of(main@, dir@, pattern@),
{
    match strip_root_marker(pattern) {
        Some(stripped) => {
            let full = join(main, stripped.as_str());
            (main.to_owned(), full)
        },
        None => {
            let search_dir = join(main, dir);
            let full = join(search_dir.as_str(), pattern);
            (search_dir, full)
        },
    }
}

/// The label and the target of a file found for `pattern`, where the
/// file lies in the directory in which the pattern is expanded.
pub open spec fn placed_match(
    target_root: Seq<char>,
    dir: Seq<char>,
    pattern: Seq<char>,
    relative: Option<Seq<char>>,
) -> Option<(Seq<char>, Seq<char>)> {
    match relative {
        None => None,
        Some(relative) => Some(
            (
                match_label_of(dir, pattern, relative),
                match_target_of(target_root, dir, pattern, relative),
            ),
        ),
    }
}

/// The views of a label and a target that may be missing.
pub open spec fn optional_place(place: Option<(String, String)>) -> Option<(Seq<char>, Seq<char>)> {
    match place {
        Some((label, target)) => Some((label@, target@)),
        None => None,
    }
}

/// Tells under which label a file that `pattern` matched is shown and
/// where it goes, if the file lies in the directory in which the pattern
/// is expanded.
pub fn place_match(main: &str, target_root: &str, dir: &str, pattern: &str, found: &str) -> (out:
    Option<(String, String)>)
    ensures
        optional_place(out) == placed_match(
            target_root@,
            dir@,
            pattern@,
            without_prefix(found@, search_dir_of(main@, dir@, pattern@)),
        ),
{
    let root_relative = strip_root_marker(pattern).is_some();
    let search_dir = if root_relative {
        main.to_owned()
    } else {
        join(main, dir)
    };
    match strip_prefix(found, search_dir.as_str()) {
        None => None,
        Some(relative) => {
            let target = if root_relative {
                join(target_root, relative.as_str())
            } else {
                let base = join(target_root, dir);
                join(base.as_str(), relative.as_str())
            };
            let label = if root_relative || dir.unicode_len() == 0 {
                relative
            } else {
                join(dir, relative.as_str())
            };
            Some((label, target))
        },
    }
}

/// Plans the copy of one file that `pattern` matched, if the file lies in
/// the directory in which the pattern was expanded.
pub fn plan_match(
    main: &str,
    target_root: &str,
    dir: &str,
    pattern: &str,
    found: &str,
    seen: &Snapshot,
) -> (out: Option<PlannedOperation>)
    ensures
        optional_operation(out) == planned_match(
            main@,
            target_root@,
            dir@,
            pattern@,
            found@,
            seen@,
        ),
{
    match place_match(main, target_root, dir, pattern, found) {
        None => None,
        Some((label, target)) => Some(
            plan_operation(OperationType::CopyGlob, label, found.to_owned(), target, seen),
        ),
    }
}

/// The view of an operation that may be missing.
pub open spec fn optional_operation(operation: Option<PlannedOperation>) -> Option<
    PlannedOperationView,
> {
    match operation {
        Some(operation) => Some(operation@),
        None => None,
    }
}

fn append_declared(
    operations: &mut Vec<PlannedOperation>,
    kind: OperationType,
    main: &str,
    target_root: &str,
    dir: &str,
    declared: &Vec<String>,
    seen: &Snapshot,
)
    ensures
        operations_of(final(operations)@) == operations_of(old(operations)@) + texts(
            declared@,
        ).map_values(
            |path: Seq<char>| planned_declared(kind, main@, target_root@, dir@, path, seen@),
        ),
{
    let ghost base = operations_of(operations@);
    let ghost all = texts(declared@);
    let ghost planned = |path: Seq<char>|
        planned_declared(kind, main@, target_root@, dir@, path, seen@);
    let mut i: usize = 0;
    proof {
        assert(operations_of(operations@) =~= base + all.take(0).map_values(planned));
    }
    while i < declared.len()
        invariant
            i <= declared.len(),
            all == texts(declared@),
            planned == (|path: Seq<char>|
                planned_declared(kind, main@, target_root@, dir@, path, seen@)),
            operations_of(operations@) == base + all.take(i as int).map_values(planned),
        decreases declared.len() - i,
    {
        let ghost before = operations_of(operations@);
        let operation = plan_declared(kind, main, target_root, dir, declared[i].as_str(), seen);
        operations.push(operation);
        proof {
            assert(operations_of(operations@) =~= before.push(operation@));
            assert(all.take(i + 1).map_values(planned) =~= all.take(i as int).map_values(
                planned,
            ).push(planned(all[i as int])));
            assert(operations_of(operations@) =~= base + all.take(i + 1).map_values(planned));
        }
        i += 1;
    }
    proof {
        assert(all.take(i as int) =~= all);
    }
}

fn append_templates(
    operations: &mut Vec<PlannedOperation>,
    main: &str,
    target_root: &str,
    dir: &str,
    templates: &Vec<TemplateMapping>,
    seen: &Snapshot,
)
    ensures
        operations_of(final(operations)@) == operations_of(old(operations)@) + templates_of(
            templates@,
        ).map_values(
            |template: TemplateMappingView|
                planned_template(main@, target_root@, dir@, template, seen@),
        ),
{
    let ghost base = operations_of(operations@);
    let ghost all = templates_of(templates@);
    let ghost planned = |template: TemplateMappingView|
        planned_template(main@, target_root@, dir@, template, seen@);
    let mut i: usize = 0;
    proof {
        assert(operations_of(operations@) =~= base + all.take(0).map_values(planned));
    }
    while i < templates.len()
        invariant
            i <= templates.len(),
            all == templates_of(templates@),
            planned == (|template: TemplateMappingView|
                planned_template(main@, target_root@, dir@, template, seen@)),
            operations_of(operations@) == base + all.take(i as int).map_values(planned),
        decreases templates.len() - i,
    {
        let ghost before = operations_of(operations@);
        let operation = plan_template(main, target_root, dir, &templates[i], seen);
        operations.push(operation);
        proof {
            assert(operations_of(operations@) =~= before.push(operation@));
            assert(all.take(i + 1).map_values(planned) =~= all.take(i as int).map_values(
                planned,
            ).push(planned(all[i as int])));
            assert(operations_of(operations@) =~= base + all.take(i + 1).map_values(planned));
        }
        i += 1;
    }
    proof {
        assert(all.take(i as int) =~= all);
    }
}

fn append_found(
    operations: &mut Vec<PlannedOperation>,
    main: &str,
    target_root: &str,
    dir: &str,
    pattern: &str,
    found: &Vec<String>,
    seen: &Snapshot,
)
    ensures
        operations_of(final(operations)@) == operations_of(old(operations)@) + planned_found(
            main@,
            target_root@,
            dir@,
            pattern@,
            texts(found@),
            seen@,
        ),
{
    let ghost base = operations_of(operations@);
    let ghost all = texts(found@);
    let mut i: usize = 0;
    proof {
        assert(all.take(0) =~= Seq::<Seq<char>>::empty());
        assert(operations_of(operations@) =~= base + Seq::<PlannedOperationView>::empty());
    }
    while i < found.len()
        invariant
            i <= found.len(),
            all == texts(found@),
            operations_of(operations@) == base + planned_found(
                main@,
                target_root@,
                dir@,
                pattern@,
                all.take(i as int),
                seen@,
            ),
        decreases found.len() - i,
    {
        proof {
            assert(all.take(i + 1).drop_last() =~= all.take(i as int));
            assert(all.take(i + 1).last() == found@[i as int]@);
        }
        let ghost before = operations_of(operations@);
        match plan_match(main, target_root, dir, pattern, found[i].as_str(), seen) {
            Some(operation) => {
                operations.push(operation);
                proof {
                    assert(operations_of(operations@) =~= before.push(operation@));
                    assert(operations_of(operations@) =~= base + planned_found(
                        main@,
                        target_root@,
                        dir@,
                        pattern@,
                        all.take(i + 1),
                        seen@,
                    ));
                }
            },
            None => {},
        }
        i += 1;
    }
    proof {
        assert(all.take(i as int) =~= all);
    }
}

fn append_patterns(
    operations: &mut Vec<PlannedOperation>,
    main: &str,
    target_root: &str,
    dir: &str,
    patterns: &Vec<String>,
    seen: &Snapshot,
)
    ensures
        operations_of(final(operations)@) == operations_of(old(operations)@) + planned_patterns(
            main@,
            target_root@,
            dir@,
            texts(patterns@),
            seen@,
        ),
{
    let ghost base = operations_of(operations@);
    let ghost all = texts(patterns@);
    let mut i: usize = 0;
    proof {
        assert(all.take(0) =~= Seq::<Seq<char>>::empty());
        assert(operations_of(operations@) =~= base + Seq::<PlannedOperationView>::empty());
    }
    while i < patterns.len()
        invariant
            i <= patterns.len(),
            all == texts(patterns@),
            operations_of(operations@) == base + planned_patterns(
                main@,
                target_root@,
                dir@,
                all.take(i as int),
                seen@,
            ),
        decreases patterns.len() - i,
    {
        proof {
            assert(all.take(i + 1).drop_last() =~= all.take(i as int));
            assert(all.take(i + 1).last() == patterns@[i as int]@);
        }
        let ghost before = operations_of(operations@);
        let (_, full) = glob_search(main, dir, patterns[i].as_str());
        match seen.matches(full.as_str()) {
            Some(found) => {
                append_found(operations, main, target_root, dir, patterns[i].as_str(), found, seen);
            },
            None => {
                proof {
                    assert(before + Seq::<PlannedOperationView>::empty() =~= before);
                }
            },
        }
        proof {
            let added = planned_pattern(main@, target_root@, dir@, all[i as int], seen@);
            assert(operations_of(operations@) == before + added);
            assert(before + added =~= base + planned_patterns(
                main@,
                target_root@,
                dir@,
                all.take(i + 1),
                seen@,
            ));
        }
        i += 1;
    }
    proof {
        assert(all.take(i as int) =~= all);
    }
}

fn malformed_pattern(main: &str, dir: &str, patterns: &Vec<String>) -> (out: Option<String>)
    ensures
        optional_text(out) == first_malformed(main@, dir@, texts(patterns@)),
{
    let ghost all = texts(patterns@);
    let mut i: usize = 0;
    proof {
        assert(all.skip(0) =~= all);
    }
    while i < patterns.len()
        invariant
            i <= patterns.len(),
            all == texts(patterns@),
            first_malformed(main@, dir@, all) == first_malformed(main@, dir@, all.skip(i as int)),
        decreases patterns.len() - i,
    {
        proof {
            assert(all.skip(i as int).drop_first() =~= all.skip(i + 1));
            assert(all.skip(i as int).first() == patterns@[i as int]@);
        }
        let (_, full) = glob_search(main, dir, patterns[i].as_str());
        match fault_of(full.as_str()) {
            Some(message) => {
                return Some(message);
            },
            None => {},
        }
        i += 1;
    }
    None
}

/// Plans every operation of a configuration, in order: links, copies,
/// overwrites, glob matches, templates. Nothing is planned where a glob
/// pattern of the configuration cannot be read.
pub fn plan_operations(
    config: &LoadedConfig,
    main_worktree: &str,
    target_worktree: &str,
    options: &ApplyConfigOptions,
    seen: &Snapshot,
) -> (out: Result<Vec<PlannedOperation>, OperationError>)
    ensures
        match out {
            Ok(operations) => plan_of(config@, main_worktree@, target_worktree@, seen@) == Ok::<
                Seq<PlannedOperationView>,
                OperationErrorView,
            >(operations_of(operations@)),
            Err(error) => plan_of(config@, main_worktree@, target_worktree@, seen@) == Err::<
                Seq<PlannedOperationView>,
                OperationErrorView,
            >(error@),
        },
{
    let dir_text = config_relative_dir(config.config_dir.as_str(), main_worktree);
    let dir = dir_text.as_str();
    match malformed_pattern(main_worktree, dir, &config.config.copy_glob) {
        Some(message) => {
            return Err(OperationError::GlobError(message));
        },
        None => {},
    }
    let mut operations: Vec<PlannedOperation> = Vec::new();
    proof {
        assert(operations_of(operations@) =~= Seq::<PlannedOperationView>::empty());
    }
    append_declared(
        &mut operations,
        OperationType::Symlink,
        main_worktree,
        target_worktree,
        dir,
        &config.config.symlinks,
        seen,
    );
    append_declared(
        &mut operations,
        OperationType::Copy,
        main_worktree,
        target_worktree,
        dir,
        &config.config.copy,
        seen,
    );
    append_declared(
        &mut operations,
        OperationType::Overwrite,
        main_worktree,
        target_worktree,
        dir,
        &config.config.overwrite,
        seen,
    );
    append_patterns(
        &mut operations,
        main_worktree,
        target_worktree,
        dir,
        &config.config.copy_glob,
        seen,
    );
    append_templates(
        &mut operations,
        main_worktree,
        target_worktree,
        dir,
        &config.config.templates,
        seen,
    );
    proof {
        assert(operations_of(operations@) =~= planned_operations(
            config@,
            main_worktree@,
            target_worktree@,
            seen@,
        ));
    }
    Ok(operations)
}

/// The copy planned for a file with uncommitted changes, if the file is
/// still there: one file, never skipped.
pub open spec fn planned_unstaged_file(
    main: Seq<char>,
    target_root: Seq<char>,
    file: Seq<char>,
    seen: SnapshotView,
) -> Option<PlannedOperationView> {
    if seen.status(joined(main, file)).exists {
        Some(
            operation_of(
                OperationType::Unstaged,
                file,
                joined(main, file),
                joined(target_root, file),
                seen,
            ),
        )
    } else {
        None
    }
}

/// The copies planned for `files`, in their order; files that are gone
/// are left out.
pub open spec fn planned_unstaged(
    main: Seq<char>,
    target_root: Seq<char>,
    files: Seq<Seq<char>>,
    seen: SnapshotView,
) -> Seq<PlannedOperationView>
    decreases files.len(),
{
    if files.len() == 0 {
        Seq::empty()
    } else {
        let before = planned_unstaged(main, target_root, files.drop_last(), seen);
        match planned_unstaged_file(main, target_root, files.last(), seen) {
            Some(operation) => before.push(operation),
            None => before,
        }
    }
}

/// Plans the copy of the files with uncommitted changes, given their
/// paths relative to the repository root.
pub fn plan_unstaged_operations(
    unstaged_files: &Vec<String>,
    main_worktree: &str,
    target_worktree: &str,
    seen: &Snapshot,
) -> (out: Vec<PlannedOperation>)
    ensures
        operations_of(out@) == planned_unstaged(
            main_worktree@,
            target_worktree@,
            texts(unstaged_files@),
            seen@,
        ),
{
    let ghost all = texts(unstaged_files@);
    let mut operations: Vec<PlannedOperation> = Vec::new();
    let mut i: usize = 0;
    proof {
        assert(all.take(0) =~= Seq::<Seq<char>>::empty());
        assert(operations_of(operations@) =~= Seq::<PlannedOperationView>::empty());
    }
    while i < unstaged_files.len()
        invariant
            i <= unstaged_files.len(),
            all == texts(unstaged_files@),
            operations_of(operations@) == planned_unstaged(
                main_worktree@,
                target_worktree@,
                all.take(i as int),
                seen@,
            ),
        decreases unstaged_files.len() - i,
    {
        proof {
            assert(all.take(i + 1).drop_last() =~= all.take(i as int));
            assert(all.take(i + 1).last() == unstaged_files@[i as int]@);
        }
        let file = &unstaged_files[i];
        let source = join(main_worktree, file.as_str());
        if seen.status(source.as_str()).exists {
            let ghost before = operations_of(operations@);
            let operation = plan_operation(
                OperationType::Unstaged,
                file.clone(),
                source,
                join(target_worktree, file.as_str()),
                seen,
            );
            operations.push(operation);
            proof {
                assert(operations_of(operations@) =~= before.push(operation@));
            }
        }
        i += 1;
    }
    proof {
        assert(all.take(i as int) =~= all);
    }
    operations
}

} // verus!
