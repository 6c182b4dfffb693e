//! The operation executor: what carrying out one operation consists of,
//! and the outcome to expect of it.
//!
//! Nothing here touches a disk. Each function takes what was seen of the
//! source and of the target just before, and returns the outcome together
//! with the changes to make, in order. The outcome holds once every change
//! is made; a change that fails aborts the operation with the failure that
//! this module names for it.

use crate::observe::PathStatus;
use crate::outcome::OperationError;
use crate::outcome::OperationErrorView;
use crate::outcome::OperationResult;
use crate::outcome::outcome;
use crate::outcome::outcome_of;
use crate::outcome::transfer_failure;
use crate::plan::OperationType;
use crate::plan::PlannedOperation;
use crate::plan::PlannedOperationView;
use crate::plan::reason_exists;
use crate::progress::CopyProgress;
use crate::progress::CopyProgressView;
use crate::text::optional_text;
use crate::transfer::Action;
use crate::transfer::ActionView;
use crate::transfer::CopyResult;
use crate::transfer::FileEntry;
use crate::transfer::FileEntryView;
use crate::transfer::Transfer;
use crate::transfer::TransferView;
use crate::transfer::Walked;
use crate::transfer::WalkedView;
use crate::transfer::actions_of;
use crate::transfer::batch_report;
use crate::transfer::copy_directory_plan;
use crate::transfer::copy_file_plan;
use crate::transfer::entries_of;
use crate::transfer::overwrite_file_plan;
use crate::transfer::reports_of;
use crate::transfer::walk_of;
use crate::trusted::parent;
use crate::trusted::parent_of;
use vstd::prelude::*;
use vstd::string::*;

verus! {

/// One change that an operation makes on disk itself, before it hands
/// over to the transfer engine.
#[derive(Debug)]
pub enum Step {
    /// Create the directory at `path` with every missing ancestor.
    CreateDirAll { path: String },
    /// Remove the file at `path`.
    RemoveFile { path: String },
    /// Remove the directory at `path` with all that is in it.
    RemoveDirAll { path: String },
    /// Create at `target` a link that points to `source`.
    Symlink { source: String, target: String },
}

/// Mathematical form of a [`Step`].
pub ghost enum StepView {
    CreateDirAll { path: Seq<char> },
    RemoveFile { path: Seq<char> },
    RemoveDirAll { path: Seq<char> },
    Symlink { source: Seq<char>, target: Seq<char> },
}

impl View for Step {
    type V = StepView;

    open spec fn view(&self) -> StepView {
        match self {
            Step::CreateDirAll { path } => StepView::CreateDirAll { path: path@ },
            Step::RemoveFile { path } => StepView::RemoveFile { path: path@ },
            Step::RemoveDirAll { path } => StepView::RemoveDirAll { path: path@ },
            Step::Symlink { source, target } => StepView::Symlink {
                source: source@,
                target: target@,
            },
        }
    }
}

/// The views of a sequence of steps.
pub open spec fn steps_of(steps: Seq<Step>) -> Seq<StepView> {
    steps.map_values(|step: Step| step@)
}

/// The failure that stands for a failed step, `cause` being the text of
/// the underlying failure.
pub open spec fn step_failure_of(step: StepView, cause: Seq<char>) -> OperationErrorView {
    match step {
        StepView::CreateDirAll { path } => OperationErrorView::IoError { path, source: cause },
        StepView::RemoveFile { path } => OperationErrorView::IoError { path, source: cause },
        StepView::RemoveDirAll { path } => OperationErrorView::IoError { path, source: cause },
        StepView::Symlink { source, target } => OperationErrorView::SymlinkError {
            source,
            target,
            error: cause,
        },
    }
}

/// The failure to raise when `step` has failed with `cause`.
pub fn step_failure(step: &Step, cause: String) -> (out: OperationError)
    ensures
        out@ == step_failure_of(step@, cause@),
{
    match step {
        Step::CreateDirAll { path } => OperationError::IoError { path: path.clone(), source: cause },
        Step::RemoveFile { path } => OperationError::IoError { path: path.clone(), source: cause },
        Step::RemoveDirAll { path } => OperationError::IoError { path: path.clone(), source: cause },
        Step::Symlink { source, target } => OperationError::SymlinkError {
            source: source.clone(),
            target: target.clone(),
            error: cause,
        },
    }
}

/// The outcome that an operation will have if everything goes well, and
/// the work that leads there: the operation's own steps first, then the
/// work of a transfer.
#[derive(Debug)]
pub struct Execution {
    /// The outcome, provided that nothing fails.
    pub result: OperationResult,
    /// Changes to make first, each before the next.
    pub steps: Vec<Step>,
    /// Progress to report before the transfer changes anything.
    pub announce: Vec<CopyProgress>,
    /// Actions of the transfer to carry out in order.
    pub prepare: Vec<Action>,
    /// Entries to transfer after `prepare`, in any order or all at once.
    pub entries: Vec<FileEntry>,
    /// Progress to report at the end.
    pub conclude: Vec<CopyProgress>,
}

/// Mathematical form of an [`Execution`].
pub ghost struct ExecutionView {
    pub result: OperationResult,
    pub steps: Seq<StepView>,
    pub announce: Seq<CopyProgressView>,
    pub prepare: Seq<ActionView>,
    pub entries: Seq<FileEntryView>,
    pub conclude: Seq<CopyProgressView>,
}

impl View for Execution {
    type V = ExecutionView;

    open spec fn view(&self) -> ExecutionView {
        ExecutionView {
            result: self.result,
            steps: steps_of(self.steps@),
            announce: reports_of(self.announce@),
            prepare: actions_of(self.prepare@),
            entries: entries_of(self.entries@),
            conclude: reports_of(self.conclude@),
        }
    }
}

impl ExecutionView {
    /// Whether the execution leaves the disk as it is.
    pub open spec fn changes_nothing(self) -> bool {
        self.steps.len() == 0 && self.prepare.len() == 0 && self.entries.len() == 0
    }
}

/// An execution that changes nothing and reports nothing.
pub open spec fn settled(result: OperationResult) -> ExecutionView {
    ExecutionView {
        result,
        steps: Seq::empty(),
        announce: Seq::empty(),
        prepare: Seq::empty(),
        entries: Seq::empty(),
        conclude: Seq::empty(),
    }
}

/// The execution that runs `transfer` after `steps` and ends in `result`.
pub open spec fn carried_out(result: OperationResult, steps: Seq<StepView>, transfer: TransferView) -> ExecutionView {
    ExecutionView {
        result,
        steps,
        announce: transfer.announce,
        prepare: transfer.prepare,
        entries: transfer.entries,
        conclude: transfer.conclude,
    }
}

/// The creation of the directory `parent`, where there is one.
pub open spec fn step_for(parent: Option<Seq<char>>) -> Seq<StepView> {
    match parent {
        Some(dir) => seq![StepView::CreateDirAll { path: dir }],
        None => Seq::empty(),
    }
}

/// The removal of what occupies a target in `status`, if anything does.
pub open spec fn clearing(target: Seq<char>, status: PathStatus) -> Seq<StepView> {
    if !status.exists {
        Seq::empty()
    } else if status.is_dir {
        seq![StepView::RemoveDirAll { path: target }]
    } else {
        seq![StepView::RemoveFile { path: target }]
    }
}

/// What creating a link at `target` to `source` comes to, `parent` being
/// the parent of the target. A target that is a link already is left
/// alone; an absent source means there is nothing to link; otherwise the
/// parent of the target is made sure of, what occupies the target is
/// removed, and the link is created.
pub open spec fn link_plan(
    source: Seq<char>,
    target: Seq<char>,
    parent: Option<Seq<char>>,
    source_exists: bool,
    target_status: PathStatus,
) -> ExecutionView {
    if target_status.is_symlink {
        settled(OperationResult::Exists)
    } else if !source_exists {
        settled(OperationResult::Skipped)
    } else {
        ExecutionView {
            result: OperationResult::Created,
            steps: (step_for(parent) + clearing(target, target_status)).push(
                StepView::Symlink { source, target },
            ),
            announce: Seq::empty(),
            prepare: Seq::empty(),
            entries: Seq::empty(),
            conclude: Seq::empty(),
        }
    }
}

/// What creating a link at `target` to `source` comes to.
pub open spec fn symlink_plan(
    source: Seq<char>,
    target: Seq<char>,
    source_exists: bool,
    target_status: PathStatus,
) -> ExecutionView {
    link_plan(source, target, parent_of(target), source_exists, target_status)
}

fn settle(result: OperationResult) -> (out: Execution)
    ensures
        out@ == settled(result),
{
    let out = Execution {
        result,
        steps: Vec::new(),
        announce: Vec::new(),
        prepare: Vec::new(),
        entries: Vec::new(),
        conclude: Vec::new(),
    };
    proof {
        assert(out@.steps =~= Seq::empty());
        assert(out@.announce =~= Seq::empty());
        assert(out@.prepare =~= Seq::empty());
        assert(out@.entries =~= Seq::empty());
        assert(out@.conclude =~= Seq::empty());
    }
    out
}

fn carry_out(result: OperationResult, steps: Vec<Step>, transfer: Transfer) -> (out: Execution)
    ensures
        out@ == carried_out(result, steps_of(steps@), transfer@),
{
    Execution {
        result,
        steps,
        announce: transfer.announce,
        prepare: transfer.prepare,
        entries: transfer.entries,
        conclude: transfer.conclude,
    }
}

/// Decides the creation of a link at `target` that points to `source`,
/// `parent` being the parent of the target.
pub fn link(
    source: &str,
    target: &str,
    parent: Option<String>,
    source_exists: bool,
    target_status: PathStatus,
) -> (out: Execution)
    ensures
        out@ == link_plan(source@, target@, optional_text(parent), source_exists, target_status),
{
    if target_status.is_symlink {
        return settle(OperationResult::Exists);
    }
    if !source_exists {
        return settle(OperationResult::Skipped);
    }
    let mut steps: Vec<Step> = Vec::new();
    match parent {
        Some(dir) => {
            steps.push(Step::CreateDirAll { path: dir });
        },
        None => {},
    }
    if target_status.exists {
        if target_status.is_dir {
            steps.push(Step::RemoveDirAll { path: target.to_owned() });
        } else {
            steps.push(Step::RemoveFile { path: target.to_owned() });
        }
    }
    steps.push(Step::Symlink { source: source.to_owned(), target: target.to_owned() });
    let out = Execution {
        result: OperationResult::Created,
        steps,
        announce: Vec::new(),
        prepare: Vec::new(),
        entries: Vec::new(),
        conclude: Vec::new(),
    };
    proof {
        let plan = link_plan(
            source@,
            target@,
            optional_text(parent),
            source_exists,
            target_status,
        );
        assert(out@.steps =~= plan.steps);
        assert(out@.announce =~= plan.announce);
        assert(out@.prepare =~= plan.prepare);
        assert(out@.entries =~= plan.entries);
        assert(out@.conclude =~= plan.conclude);
    }
    out
}

/// Decides the creation of a link at `target` that points to `source`.
pub fn create_symlink(source: &str, target: &str, source_exists: bool, target_status: PathStatus) -> (out:
    Execution)
    ensures
        out@ == symlink_plan(source@, target@, source_exists, target_status),
{
    link(source, target, parent(target), source_exists, target_status)
}

/// What copying a file comes to as an operation: the transfer, with its
/// outcome put in the operation's terms.
pub open spec fn file_copy_plan(
    source: Seq<char>,
    target: Seq<char>,
    source_exists: bool,
    target_exists: bool,
) -> ExecutionView {
    let transfer = copy_file_plan(source, target, source_exists, target_exists);
    carried_out(outcome_of(transfer.result), Seq::empty(), transfer)
}

/// Decides the copy of the file at `source` to `target`, which is made
/// only where the target is absent.
pub fn copy_file(source: &str, target: &str, source_exists: bool, target_exists: bool) -> (out:
    Execution)
    ensures
        out@ == file_copy_plan(source@, target@, source_exists, target_exists),
{
    let transfer = crate::transfer::copy_file(source, target, source_exists, target_exists);
    let steps: Vec<Step> = Vec::new();
    proof {
        assert(steps_of(steps@) =~= Seq::empty());
    }
    carry_out(outcome(transfer.result), steps, transfer)
}

/// The outcome of an overwrite: a copy over a present target has
/// overwritten it, a copy to an absent one has created it.
pub open spec fn overwrite_outcome(result: CopyResult, target_exists: bool) -> OperationResult {
    match result {
        CopyResult::Created { .. } => if target_exists {
            OperationResult::Overwritten
        } else {
            OperationResult::Created
        },
        CopyResult::Exists => OperationResult::Exists,
        CopyResult::SourceNotFound => OperationResult::Skipped,
    }
}

/// What overwriting a file comes to as an operation.
pub open spec fn file_overwrite_plan(
    source: Seq<char>,
    target: Seq<char>,
    source_exists: bool,
    target_exists: bool,
) -> ExecutionView {
    let transfer = overwrite_file_plan(source, target, source_exists);
    carried_out(overwrite_outcome(transfer.result, target_exists), Seq::empty(), transfer)
}

/// Decides the copy of the file at `source` over `target`. Whether the
/// target was there before tells an overwrite from a creation.
pub fn overwrite_file(source: &str, target: &str, source_exists: bool, target_exists: bool) -> (out:
    Execution)
    ensures
        out@ == file_overwrite_plan(source@, target@, source_exists, target_exists),
{
    let transfer = crate::transfer::overwrite_file(source, target, source_exists);
    let result = match transfer.result {
        CopyResult::Created { .. } => {
            if target_exists {
                OperationResult::Overwritten
            } else {
                OperationResult::Created
            }
        },
        CopyResult::Exists => OperationResult::Exists,
        CopyResult::SourceNotFound => OperationResult::Skipped,
    };
    let steps: Vec<Step> = Vec::new();
    proof {
        assert(steps_of(steps@) =~= Seq::empty());
    }
    carry_out(result, steps, transfer)
}

/// The steps that an operation takes before a transfer that ends in
/// `result`: the parent of the target is made sure of where the transfer
/// goes ahead, and nothing is touched where it does not.
pub open spec fn steps_before(result: CopyResult, parent: Option<Seq<char>>) -> Seq<StepView> {
    if result is Created {
        step_for(parent)
    } else {
        Seq::empty()
    }
}

/// What copying a directory comes to as an operation. Where the source is
/// absent or the target is there, nothing is changed. Otherwise the parent
/// of the target is made sure of, then the transfer runs. A failure of
/// the enumeration is the operation's failure.
pub open spec fn directory_copy_plan(
    source: Seq<char>,
    target: Seq<char>,
    source_exists: bool,
    target_exists: bool,
    walked: Seq<WalkedView>,
) -> Result<ExecutionView, OperationErrorView> {
    match copy_directory_plan(source, target, source_exists, target_exists, walked) {
        Err(error) => Err(transfer_failure(error)),
        Ok(transfer) => Ok(
            carried_out(
                outcome_of(transfer.result),
                steps_before(transfer.result, parent_of(target)),
                transfer,
            ),
        ),
    }
}

/// Decides the copy of the directory at `source` to `target`, given the
/// walk of `source`. The copy is made only where the source is there and
/// the target is not; in every other case nothing is changed.
pub fn copy_directory(
    source: &str,
    target: &str,
    source_exists: bool,
    target_exists: bool,
    walked: &Vec<Walked>,
) -> (out: Result<Execution, OperationError>)
    ensures
        match out {
            Ok(execution) => directory_copy_plan(
                source@,
                target@,
                source_exists,
                target_exists,
                walk_of(walked@),
            ) == Ok::<ExecutionView, OperationErrorView>(execution@),
            Err(error) => directory_copy_plan(
                source@,
                target@,
                source_exists,
                target_exists,
                walk_of(walked@),
            ) == Err::<ExecutionView, OperationErrorView>(error@),
        },
{
    let transfer = match crate::transfer::copy_directory(
        source,
        target,
        source_exists,
        target_exists,
        walked,
    ) {
        Ok(transfer) => transfer,
        Err(error) => {
            return Err(OperationError::from_copy_error(&error));
        },
    };
    let mut steps: Vec<Step> = Vec::new();
    match transfer.result {
        CopyResult::Created { .. } => {
            match parent(target) {
                Some(dir) => {
                    steps.push(Step::CreateDirAll { path: dir });
                },
                None => {},
            }
        },
        _ => {},
    }
    proof {
        assert(steps_of(steps@) =~= steps_before(transfer.result, parent_of(target@)));
    }
    Ok(carry_out(outcome(transfer.result), steps, transfer))
}

/// The outcome of an operation that was planned to be skipped: the target
/// exists where that is the reason given, and the source was not found
/// otherwise.
pub open spec fn skipped_outcome(reason: Option<Seq<char>>) -> OperationResult {
    if reason == Some(reason_exists()) {
        OperationResult::Exists
    } else {
        OperationResult::Skipped
    }
}

/// Whether operations of this kind copy only where the target is absent.
pub open spec fn copies_if_absent(kind: OperationType) -> bool {
    kind == OperationType::Copy || kind == OperationType::CopyGlob || kind
        == OperationType::Template
}

/// The execution of `execution` with one more report at its end, of
/// `count` files out of `count`.
pub open spec fn with_final_report(execution: ExecutionView, count: u64) -> ExecutionView {
    ExecutionView { conclude: execution.conclude.push(batch_report(count, count)), ..execution }
}

/// What executing a planned operation comes to. An operation planned to
/// be skipped changes nothing. A link is created; of the other kinds, a
/// directory is copied where the target is absent, whatever the kind, and
/// is reported complete at the end; a single file is copied where the
/// target is absent or, for overwrites and uncommitted files, copied over
/// it.
pub open spec fn execution_of(
    operation: PlannedOperationView,
    source: PathStatus,
    target: PathStatus,
    walked: Seq<WalkedView>,
) -> Result<ExecutionView, OperationErrorView> {
    if operation.will_skip {
        Ok(settled(skipped_outcome(operation.skip_reason)))
    } else if operation.operation_type == OperationType::Symlink {
        Ok(symlink_plan(operation.source, operation.target, source.exists, target))
    } else if operation.is_directory {
        match directory_copy_plan(
            operation.source,
            operation.target,
            source.exists,
            target.exists,
            walked,
        ) {
            Err(error) => Err(error),
            Ok(execution) => Ok(with_final_report(execution, operation.file_count)),
        }
    } else if copies_if_absent(operation.operation_type) {
        Ok(file_copy_plan(operation.source, operation.target, source.exists, target.exists))
    } else {
        Ok(file_overwrite_plan(operation.source, operation.target, source.exists, target.exists))
    }
}

/// Whether the walk of the source is needed to execute `operation`.
pub open spec fn walk_needed(operation: PlannedOperationView, source: PathStatus, target: PathStatus) -> bool {
    !operation.will_skip && operation.operation_type != OperationType::Symlink
        && operation.is_directory && source.exists && !target.exists
}

/// Tells whether the walk of the source is needed to execute `operation`.
pub fn needs_walk(operation: &PlannedOperation, source: PathStatus, target: PathStatus) -> (out: bool)
    ensures
        out == walk_needed(operation@, source, target),
{
    let is_symlink = match operation.operation_type {
        OperationType::Symlink => true,
        _ => false,
    };
    !operation.will_skip && !is_symlink && operation.is_directory && source.exists
        && !target.exists
}

/// Decides the execution of one planned operation, given the state of
/// its source and of its target and, for a directory, the walk of the
/// source.
pub fn execute_operation(
    operation: &PlannedOperation,
    source: PathStatus,
    target: PathStatus,
    walked: &Vec<Walked>,
) -> (out: Result<Execution, OperationError>)
    ensures
        match out {
            Ok(execution) => execution_of(operation@, source, target, walk_of(walked@)) == Ok::<
                ExecutionView,
                OperationErrorView,
            >(execution@),
            Err(error) => execution_of(operation@, source, target, walk_of(walked@)) == Err::<
                ExecutionView,
                OperationErrorView,
            >(error@),
        },
{
    if operation.will_skip {
        let target_present = match &operation.skip_reason {
            Some(reason) => *reason == String::from_str("exists"),
            None => false,
        };
        if target_present {
            return Ok(settle(OperationResult::Exists));
        } else {
            return Ok(settle(OperationResult::Skipped));
        }
    }
    match operation.operation_type {
        OperationType::Symlink => Ok(
            create_symlink(
                operation.source.as_str(),
                operation.target.as_str(),
                source.exists,
                target,
            ),
        ),
        OperationType::Copy | OperationType::CopyGlob | OperationType::Template => {
            if operation.is_directory {
                execute_directory(operation, source, target, walked)
            } else {
                Ok(
                    copy_file(
                        operation.source.as_str(),
                        operation.target.as_str(),
                        source.exists,
                        target.exists,
                    ),
                )
            }
        },
        OperationType::Overwrite | OperationType::Unstaged => {
            if operation.is_directory {
                execute_directory(operation, source, target, walked)
            } else {
                Ok(
                    overwrite_file(
                        operation.source.as_str(),
                        operation.target.as_str(),
                        source.exists,
                        target.exists,
                    ),
                )
            }
        },
    }
}

fn execute_directory(
    operation: &PlannedOperation,
    source: PathStatus,
    target: PathStatus,
    walked: &Vec<Walked>,
) -> (out: Result<Execution, OperationError>)
    ensures
        match out {
            Ok(execution) => directory_copy_plan(
                operation.source@,
                operation.target@,
                source.exists,
                target.exists,
                walk_of(walked@),
            ) is Ok && execution@ == with_final_report(
                directory_copy_plan(
                    operation.source@,
                    operation.target@,
                    source.exists,
                    target.exists,
                    walk_of(walked@),
                )->Ok_0,
                operation.file_count,
            ),
            Err(error) => directory_copy_plan(
                operation.source@,
                operation.target@,
                source.exists,
                target.exists,
                walk_of(walked@),
            ) == Err::<ExecutionView, OperationErrorView>(error@),
        },
{
    let mut execution = match copy_directory(
        operation.source.as_str(),
        operation.target.as_str(),
        source.exists,
        target.exists,
        walked,
    ) {
        Ok(execution) => execution,
        Err(error) => {
            return Err(error);
        },
    };
    let ghost before = execution@;
    let report = CopyProgress::new(operation.file_count, operation.file_count, None);
    execution.conclude.push(report);
    proof {
        assert(execution@.conclude =~= before.conclude.push(report@));
    }
    Ok(execution)
}

} // verus!
