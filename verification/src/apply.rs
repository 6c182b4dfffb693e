//! Applying a configuration directly: the stages it goes through, the
//! items of work in each, how each item is carried out, and the record of
//! the outcomes.
//!
//! Declared paths are resolved as they are for planning. Every item is a
//! single file or link, and each glob pattern is expanded only when its
//! turn has come.

use crate::config::LoadedConfig;
use crate::config::LoadedConfigView;
use crate::config::TemplateMapping;
use crate::config::TemplateMappingView;
use crate::config::templates_of;
use crate::execute::Execution;
use crate::execute::ExecutionView;
use crate::execute::copy_file;
use crate::execute::create_symlink;
use crate::execute::file_copy_plan;
use crate::execute::file_overwrite_plan;
use crate::execute::overwrite_file;
use crate::execute::symlink_plan;
use crate::observe::PathStatus;
use crate::outcome::OperationError;
use crate::outcome::OperationErrorView;
use crate::outcome::OperationResult;
use crate::paths::label_of;
use crate::paths::location_of;
use crate::paths::resolve_path;
use crate::plan::OperationType;
use crate::plan::config_relative_dir;
use crate::plan::full_pattern_of;
use crate::plan::glob_search;
use crate::plan::match_label_of;
use crate::plan::match_target_of;
use crate::plan::place_match;
use crate::plan::relative_dir;
use crate::plan::search_dir_of;
use crate::plan::template_label;
use crate::text::texts;
use crate::trusted::fault_of;
use crate::trusted::join;
use crate::trusted::joined;
use crate::trusted::pattern_fault;
use crate::trusted::without_prefix;
use vstd::prelude::*;
use vstd::string::*;

verus! {

/// Options that override what a configuration says.
#[derive(Debug, Clone, Copy, PartialEq, Eq, Structural)]
pub struct ApplyConfigOptions {
    /// Whether to copy files with uncommitted changes, if given.
    pub copy_unstaged: Option<bool>,
}

impl Default for ApplyConfigOptions {
    fn default() -> (out: ApplyConfigOptions)
        ensures
            out.copy_unstaged is None,
    {
        ApplyConfigOptions { copy_unstaged: None }
    }
}

/// The outcome of one item, under the path by which it is shown.
#[derive(Debug)]
pub struct OperationRecord {
    /// Path by which the item is shown.
    pub path: String,
    /// Outcome of the item.
    pub result: OperationResult,
}

/// Mathematical form of an [`OperationRecord`].
pub ghost struct OperationRecordView {
    pub path: Seq<char>,
    pub result: OperationResult,
}

impl View for OperationRecord {
    type V = OperationRecordView;

    open spec fn view(&self) -> OperationRecordView {
        OperationRecordView { path: self.path@, result: self.result }
    }
}

impl Clone for OperationRecord {
    fn clone(&self) -> (out: OperationRecord)
        ensures
            out@ == self@,
    {
        OperationRecord { path: self.path.clone(), result: self.result }
    }
}

fn copies_of_records(records: &Vec<OperationRecord>) -> (out: Vec<OperationRecord>)
    ensures
        records_of(out@) == records_of(records@),
{
    let mut out: Vec<OperationRecord> = Vec::new();
    let mut i: usize = 0;
    while i < records.len()
        invariant
            i <= records.len(),
            records_of(out@) == records_of(records@).take(i as int),
        decreases records.len() - i,
    {
        let ghost before = records_of(out@);
        let record = records[i].clone();
        out.push(record);
        proof {
            assert(records_of(out@) =~= before.push(record@));
            assert(records_of(records@).take(i + 1) =~= records_of(records@).take(i as int).push(
                records@[i as int]@,
            ));
        }
        i += 1;
    }
    proof {
        assert(records_of(records@).take(i as int) =~= records_of(records@));
    }
    out
}

/// The views of a sequence of records.
pub open spec fn records_of(records: Seq<OperationRecord>) -> Seq<OperationRecordView> {
    records.map_values(|record: OperationRecord| record@)
}

/// The outcomes of applying a configuration, one list for each kind.
#[derive(Debug)]
pub struct ApplyResult {
    /// Outcomes of the links.
    pub symlinks: Vec<OperationRecord>,
    /// Outcomes of the copies, glob matches included.
    pub copies: Vec<OperationRecord>,
    /// Outcomes of the overwrites.
    pub overwrites: Vec<OperationRecord>,
    /// Outcomes of the files with uncommitted changes.
    pub unstaged: Vec<OperationRecord>,
    /// Outcomes of the templates.
    pub templates: Vec<OperationRecord>,
}

/// Mathematical form of an [`ApplyResult`].
pub ghost struct ApplyResultView {
    pub symlinks: Seq<OperationRecordView>,
    pub copies: Seq<OperationRecordView>,
    pub overwrites: Seq<OperationRecordView>,
    pub unstaged: Seq<OperationRecordView>,
    pub templates: Seq<OperationRecordView>,
}

impl View for ApplyResult {
    type V = ApplyResultView;

    open spec fn view(&self) -> ApplyResultView {
        ApplyResultView {
            symlinks: records_of(self.symlinks@),
            copies: records_of(self.copies@),
            overwrites: records_of(self.overwrites@),
            unstaged: records_of(self.unstaged@),
            templates: records_of(self.templates@),
        }
    }
}

impl Clone for ApplyResult {
    fn clone(&self) -> (out: ApplyResult)
        ensures
            out@ == self@,
    {
        ApplyResult {
            symlinks: copies_of_records(&self.symlinks),
            copies: copies_of_records(&self.copies),
            overwrites: copies_of_records(&self.overwrites),
            unstaged: copies_of_records(&self.unstaged),
            templates: copies_of_records(&self.templates),
        }
    }
}

impl ApplyResultView {
    /// The outcomes with one more, filed under the list of its kind; a
    /// glob match is filed with the copies.
    pub open spec fn with(self, kind: OperationType, record: OperationRecordView) -> ApplyResultView {
        match kind {
            OperationType::Symlink => ApplyResultView {
                symlinks: self.symlinks.push(record),
                ..self
            },
            OperationType::Copy => ApplyResultView { copies: self.copies.push(record), ..self },
            OperationType::CopyGlob => ApplyResultView { copies: self.copies.push(record), ..self },
            OperationType::Overwrite => ApplyResultView {
                overwrites: self.overwrites.push(record),
                ..self
            },
            OperationType::Unstaged => ApplyResultView {
                unstaged: self.unstaged.push(record),
                ..self
            },
            OperationType::Template => ApplyResultView {
                templates: self.templates.push(record),
                ..self
            },
        }
    }
}

/// The record that holds no outcome.
pub open spec fn no_outcomes() -> ApplyResultView {
    ApplyResultView {
        symlinks: Seq::empty(),
        copies: Seq::empty(),
        overwrites: Seq::empty(),
        unstaged: Seq::empty(),
        templates: Seq::empty(),
    }
}

impl Default for ApplyResult {
    fn default() -> (out: ApplyResult)
        ensures
            out@ == no_outcomes(),
    {
        let out = ApplyResult {
            symlinks: Vec::new(),
            copies: Vec::new(),
            overwrites: Vec::new(),
            unstaged: Vec::new(),
            templates: Vec::new(),
        };
        proof {
            assert(out@.symlinks =~= Seq::empty());
            assert(out@.copies =~= Seq::empty());
            assert(out@.overwrites =~= Seq::empty());
            assert(out@.unstaged =~= Seq::empty());
            assert(out@.templates =~= Seq::empty());
        }
        out
    }
}

impl ApplyResult {
    /// Files the outcome `result` of the item shown as `path` under the
    /// list of its kind.
    pub fn record(&mut self, kind: OperationType, path: String, result: OperationResult)
        ensures
            final(self)@ == old(self)@.with(kind, OperationRecordView { path: path@, result }),
    {
        let ghost before = self@;
        let entry = OperationRecord { path, result };
        match kind {
            OperationType::Symlink => {
                self.symlinks.push(entry);
                proof {
                    assert(self@.symlinks =~= before.symlinks.push(entry@));
                }
            },
            OperationType::Copy | OperationType::CopyGlob => {
                self.copies.push(entry);
                proof {
                    assert(self@.copies =~= before.copies.push(entry@));
                }
            },
            OperationType::Overwrite => {
                self.overwrites.push(entry);
                proof {
                    assert(self@.overwrites =~= before.overwrites.push(entry@));
                }
            },
            OperationType::Unstaged => {
                self.unstaged.push(entry);
                proof {
                    assert(self@.unstaged =~= before.unstaged.push(entry@));
                }
            },
            OperationType::Template => {
                self.templates.push(entry);
                proof {
                    assert(self@.templates =~= before.templates.push(entry@));
                }
            },
        }
    }
}

/// One item of work: a path to link, copy or overwrite.
#[derive(Debug)]
pub struct ApplyItem {
    /// Path by which the item is shown.
    pub path: String,
    /// Kind of the item.
    pub operation_type: OperationType,
    /// Absolute path of the source.
    pub source: String,
    /// Absolute path of the target.
    pub target: String,
}

/// Mathematical form of an [`ApplyItem`].
pub ghost struct ApplyItemView {
    pub path: Seq<char>,
    pub operation_type: OperationType,
    pub source: Seq<char>,
    pub target: Seq<char>,
}

impl View for ApplyItem {
    type V = ApplyItemView;

    open spec fn view(&self) -> ApplyItemView {
        ApplyItemView {
            path: self.path@,
            operation_type: self.operation_type,
            source: self.source@,
            target: self.target@,
        }
    }
}

/// The views of a sequence of items.
pub open spec fn items_of(items: Seq<ApplyItem>) -> Seq<ApplyItemView> {
    items.map_values(|item: ApplyItem| item@)
}

/// The item for a declared path: it is shown, and lies under either root,
/// where the path resolves to.
pub open spec fn declared_item(
    kind: OperationType,
    main: Seq<char>,
    target_root: Seq<char>,
    dir: Seq<char>,
    declared: Seq<char>,
) -> ApplyItemView {
    ApplyItemView {
        path: label_of(dir, declared),
        operation_type: kind,
        source: location_of(main, dir, declared),
        target: location_of(target_root, dir, declared),
    }
}

/// The item for a template: each side is resolved by itself.
pub open spec fn template_item(
    main: Seq<char>,
    target_root: Seq<char>,
    dir: Seq<char>,
    template: TemplateMappingView,
) -> ApplyItemView {
    ApplyItemView {
        path: template_label(dir, template),
        operation_type: OperationType::Template,
        source: location_of(main, dir, template.source),
        target: location_of(target_root, dir, template.target),
    }
}

/// The item for a file that `pattern` matched, if the file lies in the
/// directory in which the pattern is expanded.
pub open spec fn match_item(
    main: Seq<char>,
    target_root: Seq<char>,
    dir: Seq<char>,
    pattern: Seq<char>,
    found: Seq<char>,
) -> Option<ApplyItemView> {
    match without_prefix(found, search_dir_of(main, dir, pattern)) {
        None => None,
        Some(relative) => Some(
            ApplyItemView {
                path: match_label_of(dir, pattern, relative),
                operation_type: OperationType::CopyGlob,
                source: found,
                target: match_target_of(target_root, dir, pattern, relative),
            },
        ),
    }
}

/// The items for the files in `found`, in their order.
pub open spec fn match_items(
    main: Seq<char>,
    target_root: Seq<char>,
    dir: Seq<char>,
    pattern: Seq<char>,
    found: Seq<Seq<char>>,
) -> Seq<ApplyItemView>
    decreases found.len(),
{
    if found.len() == 0 {
        Seq::empty()
    } else {
        let before = match_items(main, target_root, dir, pattern, found.drop_last());
        match match_item(main, target_root, dir, pattern, found.last()) {
            Some(item) => before.push(item),
            None => before,
        }
    }
}

/// One stage of applying a configuration.
#[derive(Debug)]
pub enum Stage {
    /// Items to carry out, in order.
    Items(Vec<ApplyItem>),
    /// A declared pattern to expand, as `full_pattern`; the files found
    /// are then carried out as the items that [`matched_items`] makes of
    /// them.
    Expand { pattern: String, full_pattern: String },
    /// The failure in which the application ends.
    Fail(OperationError),
}

/// Mathematical form of a [`Stage`].
pub ghost enum StageView {
    Items(Seq<ApplyItemView>),
    Expand { pattern: Seq<char>, full_pattern: Seq<char> },
    Fail(OperationErrorView),
}

impl View for Stage {
    type V = StageView;

    open spec fn view(&self) -> StageView {
        match self {
            Stage::Items(items) => StageView::Items(items_of(items@)),
            Stage::Expand { pattern, full_pattern } => StageView::Expand {
                pattern: pattern@,
                full_pattern: full_pattern@,
            },
            Stage::Fail(error) => StageView::Fail(error@),
        }
    }
}

/// The views of a sequence of stages.
pub open spec fn stages_of(stages: Seq<Stage>) -> Seq<StageView> {
    stages.map_values(|stage: Stage| stage@)
}

/// Whether `stages` end in a failure.
pub open spec fn ends_in_failure(stages: Seq<StageView>) -> bool {
    stages.len() > 0 && stages.last() is Fail
}

/// The stages for `patterns`: each pattern is expanded in turn, up to the
/// first that cannot be read, at which the application fails.
pub open spec fn pattern_stages(main: Seq<char>, dir: Seq<char>, patterns: Seq<Seq<char>>) -> Seq<
    StageView,
>
    decreases patterns.len(),
{
    if patterns.len() == 0 {
        Seq::empty()
    } else {
        let before = pattern_stages(main, dir, patterns.drop_last());
        if ends_in_failure(before) {
            before
        } else {
            match pattern_fault(full_pattern_of(main, dir, patterns.last())) {
                Some(message) => before.push(
                    StageView::Fail(OperationErrorView::GlobError(message)),
                ),
                None => before.push(
                    StageView::Expand {
                        pattern: patterns.last(),
                        full_pattern: full_pattern_of(main, dir, patterns.last()),
                    },
                ),
            }
        }
    }
}

/// The items that a configuration declares by path: links, copies and
/// overwrites, in this order.
pub open spec fn declared_items(
    config: LoadedConfigView,
    main: Seq<char>,
    target_root: Seq<char>,
) -> Seq<ApplyItemView> {
    let dir = relative_dir(config.config_dir, main);
    config.config.symlinks.map_values(
        |declared: Seq<char>|
            declared_item(OperationType::Symlink, main, target_root, dir, declared),
    ) + config.config.copy.map_values(
        |declared: Seq<char>| declared_item(OperationType::Copy, main, target_root, dir, declared),
    ) + config.config.overwrite.map_values(
        |declared: Seq<char>|
            declared_item(OperationType::Overwrite, main, target_root, dir, declared),
    )
}

/// The items of the templates of a configuration.
pub open spec fn template_items(
    config: LoadedConfigView,
    main: Seq<char>,
    target_root: Seq<char>,
) -> Seq<ApplyItemView> {
    let dir = relative_dir(config.config_dir, main);
    config.config.templates.map_values(
        |template: TemplateMappingView| template_item(main, target_root, dir, template),
    )
}

/// The stages that applying a configuration goes through: the declared
/// links, copies and overwrites; then each glob pattern in turn; then the
/// templates. A pattern that cannot be read ends it: what comes before
/// that pattern stands, the rest is dropped, and the application fails.
pub open spec fn stages_to_apply(
    config: LoadedConfigView,
    main: Seq<char>,
    target_root: Seq<char>,
) -> Seq<StageView> {
    let expansions = pattern_stages(
        main,
        relative_dir(config.config_dir, main),
        config.config.copy_glob,
    );
    let first = seq![StageView::Items(declared_items(config, main, target_root))] + expansions;
    if ends_in_failure(expansions) {
        first
    } else {
        first.push(StageView::Items(template_items(config, main, target_root)))
    }
}

fn append_declared(
    items: &mut Vec<ApplyItem>,
    kind: OperationType,
    main: &str,
    target_root: &str,
    dir: &str,
    declared: &Vec<String>,
)
    ensures
        items_of(final(items)@) == items_of(old(items)@) + texts(declared@).map_values(
            |path: Seq<char>| declared_item(kind, main@, target_root@, dir@, path),
        ),
{
    let ghost base = items_of(items@);
    let ghost all = texts(declared@);
    let ghost item_of = |path: Seq<char>| declared_item(kind, main@, target_root@, dir@, path);
    let mut i: usize = 0;
    proof {
        assert(items_of(items@) =~= base + all.take(0).map_values(item_of));
    }
    while i < declared.len()
        invariant
            i <= declared.len(),
            all == texts(declared@),
            item_of == (|path: Seq<char>|
                declared_item(kind, main@, target_root@, dir@, path)),
            items_of(items@) == base + all.take(i as int).map_values(item_of),
        decreases declared.len() - i,
    {
        let ghost before = items_of(items@);
        let (source, path) = resolve_path(main, dir, declared[i].as_str());
        let (target, _) = resolve_path(target_root, dir, declared[i].as_str());
        let item = ApplyItem { path, operation_type: kind, source, target };
        items.push(item);
        proof {
            assert(items_of(items@) =~= before.push(item@));
            assert(all.take(i + 1).map_values(item_of) =~= all.take(i as int).map_values(
                item_of,
            ).push(item_of(all[i as int])));
            assert(items_of(items@) =~= base + all.take(i + 1).map_values(item_of));
        }
        i += 1;
    }
    proof {
        assert(all.take(i as int) =~= all);
    }
}

fn items_of_templates(main: &str, target_root: &str, dir: &str, templates: &Vec<TemplateMapping>) -> (out:
    Vec<ApplyItem>)
    ensures
        items_of(out@) == templates_of(templates@).map_values(
            |template: TemplateMappingView| template_item(main@, target_root@, dir@, template),
        ),
{
    let ghost all = templates_of(templates@);
    let ghost item_of = |template: TemplateMappingView|
        template_item(main@, target_root@, dir@, template);
    let mut items: Vec<ApplyItem> = Vec::new();
    let mut i: usize = 0;
    proof {
        assert(items_of(items@) =~= all.take(0).map_values(item_of));
    }
    while i < templates.len()
        invariant
            i <= templates.len(),
            all == templates_of(templates@),
            item_of == (|template: TemplateMappingView|
                template_item(main@, target_root@, dir@, template)),
            items_of(items@) == all.take(i as int).map_values(item_of),
        decreases templates.len() - i,
    {
        let ghost before = items_of(items@);
        let template = &templates[i];
        let (source, source_label) = resolve_path(main, dir, template.source.as_str());
        let (target, target_label) = resolve_path(target_root, dir, template.target.as_str());
        let mut path = source_label;
        path.append(" -> ");
        path.append(target_label.as_str());
        let item = ApplyItem { path, operation_type: OperationType::Template, source, target };
        items.push(item);
        proof {
            assert(items_of(items@) =~= before.push(item@));
            assert(all.take(i + 1).map_values(item_of) =~= all.take(i as int).map_values(
                item_of,
            ).push(item_of(all[i as int])));
        }
        i += 1;
    }
    proof {
        assert(all.take(i as int) =~= all);
    }
    items
}

/// Makes items of the files `found` for the declared pattern `pattern` of
/// a configuration, in their order; a file that does not lie in the
/// directory in which the pattern is expanded is left out.
pub fn matched_items(
    config: &LoadedConfig,
    main_worktree: &str,
    target_worktree: &str,
    pattern: &str,
    found: &Vec<String>,
) -> (out: Vec<ApplyItem>)
    ensures
        items_of(out@) == match_items(
            main_worktree@,
            target_worktree@,
            relative_dir(config@.config_dir, main_worktree@),
            pattern@,
            texts(found@),
        ),
{
    let dir_text = config_relative_dir(config.config_dir.as_str(), main_worktree);
    let dir = dir_text.as_str();
    let ghost all = texts(found@);
    let mut items: Vec<ApplyItem> = Vec::new();
    let mut i: usize = 0;
    proof {
        assert(all.take(0) =~= Seq::<Seq<char>>::empty());
        assert(items_of(items@) =~= Seq::<ApplyItemView>::empty());
    }
    while i < found.len()
        invariant
            i <= found.len(),
            all == texts(found@),
            dir@ == relative_dir(config@.config_dir, main_worktree@),
            items_of(items@) == match_items(
                main_worktree@,
                target_worktree@,
                dir@,
                pattern@,
                all.take(i as int),
            ),
        decreases found.len() - i,
    {
        proof {
            assert(all.take(i + 1).drop_last() =~= all.take(i as int));
            assert(all.take(i + 1).last() == found@[i as int]@);
        }
        let ghost before = items_of(items@);
        match place_match(main_worktree, target_worktree, dir, pattern, found[i].as_str()) {
            Some((path, target)) => {
                let item = ApplyItem {
                    path,
                    operation_type: OperationType::CopyGlob,
                    source: found[i].clone(),
                    target,
                };
                items.push(item);
                proof {
                    assert(items_of(items@) =~= before.push(item@));
                }
            },
            None => {},
        }
        i += 1;
    }
    proof {
        assert(all.take(i as int) =~= all);
    }
    items
}

proof fn lemma_pattern_stages_stay_failed(
    main: Seq<char>,
    dir: Seq<char>,
    patterns: Seq<Seq<char>>,
    k: int,
)
    requires
        0 <= k <= patterns.len(),
        ends_in_failure(pattern_stages(main, dir, patterns.take(k))),
    ensures
        pattern_stages(main, dir, patterns) == pattern_stages(main, dir, patterns.take(k)),
    decreases patterns.len() - k,
{
    if k < patterns.len() {
        assert(patterns.take(k + 1).drop_last() =~= patterns.take(k));
        lemma_pattern_stages_stay_failed(main, dir, patterns, k + 1);
    } else {
        assert(patterns.take(k) =~= patterns);
    }
}

fn append_pattern_stages(stages: &mut Vec<Stage>, main: &str, dir: &str, patterns: &Vec<String>) -> (failed:
    bool)
    ensures
        stages_of(final(stages)@) == stages_of(old(stages)@) + pattern_stages(
            main@,
            dir@,
            texts(patterns@),
        ),
        failed == ends_in_failure(pattern_stages(main@, dir@, texts(patterns@))),
{
    let ghost base = stages_of(stages@);
    let ghost all = texts(patterns@);
    let mut i: usize = 0;
    proof {
        assert(all.take(0) =~= Seq::<Seq<char>>::empty());
        assert(stages_of(stages@) =~= base + pattern_stages(main@, dir@, all.take(0)));
    }
    while i < patterns.len()
        invariant
            i <= patterns.len(),
            all == texts(patterns@),
            base == stages_of(old(stages)@),
            stages_of(stages@) == base + pattern_stages(main@, dir@, all.take(i as int)),
            !ends_in_failure(pattern_stages(main@, dir@, all.take(i as int))),
        decreases patterns.len() - i,
    {
        proof {
            assert(all.take(i + 1).drop_last() =~= all.take(i as int));
            assert(all.take(i + 1).last() == patterns@[i as int]@);
        }
        let ghost before = stages_of(stages@);
        let (_, full_pattern) = glob_search(main, dir, patterns[i].as_str());
        match fault_of(full_pattern.as_str()) {
            Some(message) => {
                let stage = Stage::Fail(OperationError::GlobError(message));
                stages.push(stage);
                proof {
                    assert(stages_of(stages@) =~= before.push(stage@));
                    assert(stages_of(stages@) =~= base + pattern_stages(
                        main@,
                        dir@,
                        all.take(i + 1),
                    ));
                    lemma_pattern_stages_stay_failed(main@, dir@, all, i + 1);
                    assert(stages_of(stages@) == base + pattern_stages(main@, dir@, all));
                }
                return true;
            },
            None => {
                let stage = Stage::Expand { pattern: patterns[i].clone(), full_pattern };
                stages.push(stage);
                proof {
                    assert(stages_of(stages@) =~= before.push(stage@));
                    assert(stages_of(stages@) =~= base + pattern_stages(
                        main@,
                        dir@,
                        all.take(i + 1),
                    ));
                }
            },
        }
        i += 1;
    }
    proof {
        assert(all.take(i as int) =~= all);
    }
    false
}

/// Lists the stages that applying a configuration goes through, in the
/// order in which they are carried out.
pub fn apply_config(config: &LoadedConfig, main_worktree: &str, target_worktree: &str) -> (out: Vec<
    Stage,
>)
    ensures
        stages_of(out@) == stages_to_apply(config@, main_worktree@, target_worktree@),
{
    let dir_text = config_relative_dir(config.config_dir.as_str(), main_worktree);
    let dir = dir_text.as_str();
    let mut items: Vec<ApplyItem> = Vec::new();
    proof {
        assert(items_of(items@) =~= Seq::<ApplyItemView>::empty());
    }
    append_declared(
        &mut items,
        OperationType::Symlink,
        main_worktree,
        target_worktree,
        dir,
        &config.config.symlinks,
    );
    append_declared(
        &mut items,
        OperationType::Copy,
        main_worktree,
        target_worktree,
        dir,
        &config.config.copy,
    );
    append_declared(
        &mut items,
        OperationType::Overwrite,
        main_worktree,
        target_worktree,
        dir,
        &config.config.overwrite,
    );
    proof {
        assert(items_of(items@) =~= declared_items(config@, main_worktree@, target_worktree@));
    }
    let mut stages: Vec<Stage> = Vec::new();
    let first = Stage::Items(items);
    stages.push(first);
    proof {
        assert(stages_of(stages@) =~= seq![first@]);
    }
    let failed = append_pattern_stages(&mut stages, main_worktree, dir, &config.config.copy_glob);
    if !failed {
        let ghost before = stages_of(stages@);
        let last = Stage::Items(
            items_of_templates(main_worktree, target_worktree, dir, &config.config.templates),
        );
        stages.push(last);
        proof {
            assert(stages_of(stages@) =~= before.push(last@));
        }
    }
    stages
}

/// Whether files with uncommitted changes are copied: as the options say
/// where they say, and as the configuration says otherwise.
pub fn copies_unstaged(options: &ApplyConfigOptions, config: &LoadedConfig) -> (out: bool)
    ensures
        out == match options.copy_unstaged {
            Some(choice) => choice,
            None => config.config.copy_unstaged,
        },
{
    match options.copy_unstaged {
        Some(choice) => choice,
        None => config.config.copy_unstaged,
    }
}

/// The item for a file with uncommitted changes.
pub open spec fn unstaged_item(main: Seq<char>, target_root: Seq<char>, file: Seq<char>) -> ApplyItemView {
    ApplyItemView {
        path: file,
        operation_type: OperationType::Unstaged,
        source: joined(main, file),
        target: joined(target_root, file),
    }
}

/// Lists the items for the files with uncommitted changes.
pub fn unstaged_items(files: &Vec<String>, main_worktree: &str, target_worktree: &str) -> (out: Vec<
    ApplyItem,
>)
    ensures
        items_of(out@) == texts(files@).map_values(
            |file: Seq<char>| unstaged_item(main_worktree@, target_worktree@, file),
        ),
{
    let ghost all = texts(files@);
    let ghost item_of = |file: Seq<char>| unstaged_item(main_worktree@, target_worktree@, file);
    let mut items: Vec<ApplyItem> = Vec::new();
    let mut i: usize = 0;
    proof {
        assert(items_of(items@) =~= all.take(0).map_values(item_of));
    }
    while i < files.len()
        invariant
            i <= files.len(),
            all == texts(files@),
            item_of == (|file: Seq<char>|
                unstaged_item(main_worktree@, target_worktree@, file)),
            items_of(items@) == all.take(i as int).map_values(item_of),
        decreases files.len() - i,
    {
        let ghost before = items_of(items@);
        let item = ApplyItem {
            path: files[i].clone(),
            operation_type: OperationType::Unstaged,
            source: join(main_worktree, files[i].as_str()),
            target: join(target_worktree, files[i].as_str()),
        };
        items.push(item);
        proof {
            assert(items_of(items@) =~= before.push(item@));
            assert(all.take(i + 1).map_values(item_of) =~= all.take(i as int).map_values(
                item_of,
            ).push(item_of(all[i as int])));
        }
        i += 1;
    }
    proof {
        assert(all.take(i as int) =~= all);
    }
    items
}

/// What carrying out an item comes to, given the state of its source and
/// of its target: a link is created, an overwrite copies over the target,
/// every other kind copies where the target is absent. A file with
/// uncommitted changes that is gone is passed over without a record.
pub open spec fn item_execution(item: ApplyItemView, source: PathStatus, target: PathStatus) -> Option<
    ExecutionView,
> {
    match item.operation_type {
        OperationType::Symlink => Some(
            symlink_plan(item.source, item.target, source.exists, target),
        ),
        OperationType::Overwrite => Some(
            file_overwrite_plan(item.source, item.target, source.exists, target.exists),
        ),
        OperationType::Unstaged => if source.exists {
            Some(file_overwrite_plan(item.source, item.target, source.exists, target.exists))
        } else {
            None
        },
        _ => Some(file_copy_plan(item.source, item.target, source.exists, target.exists)),
    }
}

/// The view of an execution that may be missing.
pub open spec fn optional_execution(execution: Option<Execution>) -> Option<ExecutionView> {
    match execution {
        Some(execution) => Some(execution@),
        None => None,
    }
}

/// Decides how one item is carried out, given the state of its source and
/// of its target.
pub fn apply_item(item: &ApplyItem, source: PathStatus, target: PathStatus) -> (out: Option<Execution>)
    ensures
        optional_execution(out) == item_execution(item@, source, target),
{
    match item.operation_type {
        OperationType::Symlink => Some(
            create_symlink(item.source.as_str(), item.target.as_str(), source.exists, target),
        ),
        OperationType::Overwrite => Some(
            overwrite_file(
                item.source.as_str(),
                item.target.as_str(),
                source.exists,
                target.exists,
            ),
        ),
        OperationType::Unstaged => {
            if source.exists {
                Some(
                    overwrite_file(
                        item.source.as_str(),
                        item.target.as_str(),
                        source.exists,
                        target.exists,
                    ),
                )
            } else {
                None
            }
        },
        _ => Some(
            copy_file(item.source.as_str(), item.target.as_str(), source.exists, target.exists),
        ),
    }
}

} // verus!
