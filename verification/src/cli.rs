//! What the command line decides: how its flags are read, how an outcome
//! is worded, which commands run after the setup.

use crate::config::LoadedConfig;
use crate::config::LoadedConfigView;
use crate::outcome::OperationResult;
use crate::plan::OperationType;
use crate::plan::PlannedOperation;
use crate::plan::PlannedOperationView;
use crate::prompts::configs_of;
use crate::text::characters;
use crate::text::copies_of;
use crate::text::copy_of;
use crate::text::find;
use crate::text::includes;
use crate::text::is_among;
use crate::text::optional_text;
use crate::text::texts;
use crate::trusted::absolute;
use crate::trusted::is_absolute;
use crate::trusted::join;
use crate::trusted::joined;
use crate::trusted::same_location;
use crate::trusted::same_path;
use vstd::prelude::*;
use vstd::string::*;

verus! {

/// The arguments of the command line.
#[derive(Debug)]
pub struct Args {
    /// Path of the target working copy.
    pub target_path: Option<String>,
    /// Branch to create the working copy from.
    pub branch: Option<String>,
    /// New branch to create for the working copy.
    pub new_branch: Option<String>,
    /// Configurations to use, by part of their path.
    pub configs: Vec<String>,
    /// Do not run the commands that follow the setup.
    pub no_install: bool,
    /// Copy files with uncommitted changes.
    pub unstaged: bool,
    /// Do not copy files with uncommitted changes.
    pub no_unstaged: bool,
    /// List the configurations and stop.
    pub list: bool,
    /// Ask nothing.
    pub non_interactive: bool,
    /// Show no progress bars.
    pub no_progress: bool,
    /// Say more.
    pub verbose: bool,
}

/// Mathematical form of [`Args`].
pub ghost struct ArgsView {
    pub target_path: Option<Seq<char>>,
    pub branch: Option<Seq<char>>,
    pub new_branch: Option<Seq<char>>,
    pub configs: Seq<Seq<char>>,
    pub no_install: bool,
    pub unstaged: bool,
    pub no_unstaged: bool,
    pub list: bool,
    pub non_interactive: bool,
    pub no_progress: bool,
    pub verbose: bool,
}

impl View for Args {
    type V = ArgsView;

    open spec fn view(&self) -> ArgsView {
        ArgsView {
            target_path: optional_text(self.target_path),
            branch: optional_text(self.branch),
            new_branch: optional_text(self.new_branch),
            configs: texts(self.configs@),
            no_install: self.no_install,
            unstaged: self.unstaged,
            no_unstaged: self.no_unstaged,
            list: self.list,
            non_interactive: self.non_interactive,
            no_progress: self.no_progress,
            verbose: self.verbose,
        }
    }
}

impl Clone for Args {
    fn clone(&self) -> (out: Args)
        ensures
            out@ == self@,
    {
        Args {
            target_path: copy_of(&self.target_path),
            branch: copy_of(&self.branch),
            new_branch: copy_of(&self.new_branch),
            configs: copies_of(&self.configs),
            no_install: self.no_install,
            unstaged: self.unstaged,
            no_unstaged: self.no_unstaged,
            list: self.list,
            non_interactive: self.non_interactive,
            no_progress: self.no_progress,
            verbose: self.verbose,
        }
    }
}

impl Args {
    /// What the flags say of files with uncommitted changes: not to copy
    /// them where that is asked, to copy them where only that is asked,
    /// and nothing where neither is.
    pub fn copy_unstaged_override(&self) -> (out: Option<bool>)
        ensures
            out == if self.no_unstaged {
                Some(false)
            } else if self.unstaged {
                Some(true)
            } else {
                None
            },
    {
        if self.no_unstaged {
            Some(false)
        } else if self.unstaged {
            Some(true)
        } else {
            None
        }
    }

    /// Whether the commands that follow the setup are run.
    pub fn should_run_install(&self) -> (out: bool)
        ensures
            out == !self.no_install,
    {
        !self.no_install
    }

    /// Whether progress bars are shown.
    pub fn should_show_progress(&self) -> (out: bool)
        ensures
            out == !self.no_progress,
    {
        !self.no_progress
    }
}

/// The word that reports `result` for an operation of kind `kind`.
pub open spec fn result_word(result: OperationResult, kind: OperationType) -> Seq<char> {
    match result {
        OperationResult::Created => match kind {
            OperationType::Symlink => "symlink"@,
            OperationType::Template => "created"@,
            _ => "copied"@,
        },
        OperationResult::Overwritten => "overwritten"@,
        OperationResult::Exists => "exists"@,
        OperationResult::Skipped => "skipped"@,
    }
}

/// Words the outcome of an operation for the user.
pub fn format_result_string(result: OperationResult, op_type: OperationType) -> (out: String)
    ensures
        out@ == result_word(result, op_type),
{
    match result {
        OperationResult::Created => match op_type {
            OperationType::Symlink => String::from_str("symlink"),
            OperationType::Template => String::from_str("created"),
            _ => String::from_str("copied"),
        },
        OperationResult::Overwritten => String::from_str("overwritten"),
        OperationResult::Exists => String::from_str("exists"),
        OperationResult::Skipped => String::from_str("skipped"),
    }
}

/// Whether the execution of `operation` is shown with a progress bar: a
/// directory of more than one file is.
pub fn needs_progress_bar(operation: &PlannedOperation) -> (out: bool)
    ensures
        out == (operation.is_directory && operation.file_count > 1),
{
    operation.is_directory && operation.file_count > 1
}

/// The texts of `items` without repetition: each text once, at the place
/// of its first occurrence.
pub open spec fn without_repeats(items: Seq<Seq<char>>) -> Seq<Seq<char>>
    decreases items.len(),
{
    if items.len() == 0 {
        Seq::empty()
    } else {
        let before = without_repeats(items.drop_last());
        if before.contains(items.last()) {
            before
        } else {
            before.push(items.last())
        }
    }
}

/// The commands to run after the setup, given those of every selected
/// configuration in order: each command once, in the order in which the
/// commands first occur.
pub fn unique_commands(commands: &Vec<String>) -> (out: Vec<String>)
    ensures
        texts(out@) == without_repeats(texts(commands@)),
{
    let ghost all = texts(commands@);
    let mut unique: Vec<String> = Vec::new();
    let mut i: usize = 0;
    proof {
        assert(all.take(0) =~= Seq::<Seq<char>>::empty());
        assert(texts(unique@) =~= Seq::<Seq<char>>::empty());
    }
    while i < commands.len()
        invariant
            i <= commands.len(),
            all == texts(commands@),
            texts(unique@) == without_repeats(all.take(i as int)),
        decreases commands.len() - i,
    {
        proof {
            assert(all.take(i + 1).drop_last() =~= all.take(i as int));
            assert(all.take(i + 1).last() == commands@[i as int]@);
        }
        if !is_among(&unique, &commands[i]) {
            let ghost before = texts(unique@);
            unique.push(commands[i].clone());
            proof {
                assert(texts(unique@) =~= before.push(commands@[i as int]@));
            }
        }
        i += 1;
    }
    proof {
        assert(all.take(i as int) =~= all);
    }
    unique
}

/// Whether a configuration is asked for by one of `patterns`: one of them
/// stands in its relative path or in its absolute path.
pub open spec fn asked_for(config: LoadedConfigView, patterns: Seq<Seq<char>>) -> bool {
    exists|k: int|
        0 <= k < patterns.len() && (includes(config.relative_path, #[trigger] patterns[k]) || includes(
            config.config_path,
            patterns[k],
        ))
}

/// The places, among the first `count` of `configs`, of those that are
/// asked for, in ascending order.
pub open spec fn selection(configs: Seq<LoadedConfigView>, patterns: Seq<Seq<char>>, count: nat) -> Seq<
    usize,
>
    decreases count,
{
    if count == 0 {
        Seq::empty()
    } else {
        let before = selection(configs, patterns, (count - 1) as nat);
        if asked_for(configs[count - 1], patterns) {
            before.push((count - 1) as usize)
        } else {
            before
        }
    }
}

fn is_asked_for(config: &LoadedConfig, patterns: &Vec<Vec<char>>, shown: Ghost<Seq<Seq<char>>>) -> (out:
    bool)
    requires
        shown@.len() == patterns.len(),
        forall|k: int| 0 <= k < patterns.len() ==> (#[trigger] patterns[k])@ == shown@[k],
    ensures
        out == asked_for(config@, shown@),
{
    let relative = characters(config.relative_path.as_str());
    let whole = characters(config.config_path.as_str());
    let mut k: usize = 0;
    while k < patterns.len()
        invariant
            k <= patterns.len(),
            shown@.len() == patterns.len(),
            relative@ == config@.relative_path,
            whole@ == config@.config_path,
            forall|m: int| 0 <= m < patterns.len() ==> (#[trigger] patterns[m])@ == shown@[m],
            forall|m: int|
                0 <= m < k ==> !includes(config@.relative_path, #[trigger] shown@[m]) && !includes(
                    config@.config_path,
                    shown@[m],
                ),
        decreases patterns.len() - k,
    {
        assert(patterns[k as int]@ == shown@[k as int]);
        if find(&relative, &patterns[k], 0).is_some() || find(&whole, &patterns[k], 0).is_some() {
            return true;
        }
        k += 1;
    }
    false
}

/// Selects the configurations that the command line asks for by part of
/// their path.
pub fn selected_by_patterns(configs: &Vec<LoadedConfig>, patterns: &Vec<String>) -> (out: Vec<usize>)
    ensures
        out@ == selection(configs_of(configs@), texts(patterns@), configs.len() as nat),
{
    let mut needles: Vec<Vec<char>> = Vec::new();
    let mut k: usize = 0;
    while k < patterns.len()
        invariant
            k <= patterns.len(),
            needles.len() == k,
            forall|m: int| 0 <= m < k ==> (#[trigger] needles[m])@ == texts(patterns@)[m],
        decreases patterns.len() - k,
    {
        needles.push(characters(patterns[k].as_str()));
        k += 1;
    }
    let ghost all = configs_of(configs@);
    let mut selected: Vec<usize> = Vec::new();
    let mut i: usize = 0;
    while i < configs.len()
        invariant
            i <= configs.len(),
            all == configs_of(configs@),
            needles.len() == patterns.len(),
            forall|m: int|
                0 <= m < needles.len() ==> (#[trigger] needles[m])@ == texts(patterns@)[m],
            selected@ == selection(all, texts(patterns@), i as nat),
        decreases configs.len() - i,
    {
        if is_asked_for(&configs[i], &needles, Ghost(texts(patterns@))) {
            selected.push(i);
        }
        i += 1;
    }
    selected
}

/// Selects every one of `count` configurations.
pub fn all_selected(count: usize) -> (out: Vec<usize>)
    ensures
        out@ == Seq::new(count as nat, |i: int| i as usize),
{
    let mut selected: Vec<usize> = Vec::new();
    let mut i: usize = 0;
    while i < count
        invariant
            i <= count,
            selected@ == Seq::new(i as nat, |i: int| i as usize),
        decreases count - i,
    {
        selected.push(i);
        proof {
            assert(selected@ =~= Seq::new((i + 1) as nat, |i: int| i as usize));
        }
        i += 1;
    }
    selected
}

/// The target path made absolute: itself where it is absolute, and
/// otherwise joined to the current directory.
pub fn absolute_target(target_path: &str, current_dir: &str) -> (out: String)
    ensures
        out@ == if absolute(target_path@) {
            target_path@
        } else {
            joined(current_dir@, target_path@)
        },
{
    if is_absolute(target_path) {
        target_path.to_owned()
    } else {
        join(current_dir, target_path)
    }
}

/// Whether the target is the main working copy, which is not set up.
pub fn is_main_worktree(target_path: &str, main_path: &str) -> (out: bool)
    ensures
        out == same_location(target_path@, main_path@),
{
    same_path(target_path, main_path)
}

/// The commands of the configurations at the places `selected`, in the
/// order of selection and, within a configuration, of declaration.
pub open spec fn commands_of(configs: Seq<LoadedConfigView>, selected: Seq<usize>) -> Seq<Seq<char>>
    decreases selected.len(),
{
    if selected.len() == 0 {
        Seq::empty()
    } else {
        commands_of(configs, selected.drop_last()) + configs[selected.last() as int].config.post_setup
    }
}

/// Collects the commands to run after the setup from the selected
/// configurations.
pub fn post_setup_commands(configs: &Vec<LoadedConfig>, selected: &Vec<usize>) -> (out: Vec<String>)
    requires
        forall|k: int| 0 <= k < selected.len() ==> (#[trigger] selected[k]) < configs.len(),
    ensures
        texts(out@) == commands_of(configs_of(configs@), selected@),
{
    let ghost all = configs_of(configs@);
    let mut commands: Vec<String> = Vec::new();
    let mut i: usize = 0;
    proof {
        assert(selected@.take(0) =~= Seq::<usize>::empty());
        assert(texts(commands@) =~= Seq::<Seq<char>>::empty());
    }
    while i < selected.len()
        invariant
            i <= selected.len(),
            all == configs_of(configs@),
            forall|k: int| 0 <= k < selected.len() ==> (#[trigger] selected[k]) < configs.len(),
            texts(commands@) == commands_of(all, selected@.take(i as int)),
        decreases selected.len() - i,
    {
        proof {
            assert(selected@.take(i + 1).drop_last() =~= selected@.take(i as int));
            assert(selected@.take(i + 1).last() == selected@[i as int]);
        }
        let config = &configs[selected[i]];
        let ghost base = texts(commands@);
        let ghost wanted = texts(config.config.post_setup@);
        let mut j: usize = 0;
        proof {
            assert(texts(commands@) =~= base + wanted.take(0));
        }
        while j < config.config.post_setup.len()
            invariant
                j <= config.config.post_setup.len(),
                wanted == texts(config.config.post_setup@),
                texts(commands@) == base + wanted.take(j as int),
            decreases config.config.post_setup.len() - j,
        {
            let ghost before = texts(commands@);
            commands.push(config.config.post_setup[j].clone());
            proof {
                assert(texts(commands@) =~= before.push(wanted[j as int]));
                assert(texts(commands@) =~= base + wanted.take(j + 1));
            }
            j += 1;
        }
        proof {
            assert(wanted.take(j as int) =~= wanted);
            assert(all[selected@[i as int] as int].config.post_setup == wanted);
        }
        i += 1;
    }
    proof {
        assert(selected@.take(i as int) =~= selected@);
    }
    commands
}

/// The word shown for an operation that is skipped: its reason, or
/// `skipped` where none is given.
pub open spec fn skip_word(operation: PlannedOperationView) -> Seq<char> {
    match operation.skip_reason {
        Some(reason) => reason,
        None => "skipped"@,
    }
}

/// The word shown for an operation that is skipped.
pub fn skip_label(operation: &PlannedOperation) -> (out: String)
    ensures
        out@ == skip_word(operation@),
{
    match &operation.skip_reason {
        Some(reason) => reason.clone(),
        None => String::from_str("skipped"),
    }
}

} // verus!
