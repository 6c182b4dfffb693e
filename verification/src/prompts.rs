//! What the interactive questions decide: which choices are offered, and
//! what each answer comes to.

use crate::config::LoadedConfig;
use crate::config::LoadedConfigView;
use crate::git::WorktreeCreateOptions;
use crate::git::WorktreeCreateOptionsView;
use crate::text::compose;
use crate::text::optional_text;
use crate::text::texts;
use crate::trusted::file_name;
use crate::trusted::final_component;
use vstd::prelude::*;
use vstd::string::*;

verus! {

/// The line under which a configuration is offered for selection: its
/// relative path, a dash, its description.
pub open spec fn choice_label(config: LoadedConfigView) -> Seq<char> {
    config.relative_path + " - "@ + config.config.description
}

/// The views of a sequence of loaded configurations.
pub open spec fn configs_of(configs: Seq<LoadedConfig>) -> Seq<LoadedConfigView> {
    configs.map_values(|config: LoadedConfig| config@)
}

/// The lines under which `configs` are offered for selection.
pub fn config_choices(configs: &Vec<LoadedConfig>) -> (out: Vec<String>)
    ensures
        texts(out@) == configs_of(configs@).map_values(
            |config: LoadedConfigView| choice_label(config),
        ),
{
    let ghost all = configs_of(configs@);
    let ghost label = |config: LoadedConfigView| choice_label(config);
    let mut out: Vec<String> = Vec::new();
    let mut i: usize = 0;
    proof {
        assert(texts(out@) =~= all.take(0).map_values(label));
    }
    while i < configs.len()
        invariant
            i <= configs.len(),
            all == configs_of(configs@),
            label == (|config: LoadedConfigView| choice_label(config)),
            texts(out@) == all.take(i as int).map_values(label),
        decreases configs.len() - i,
    {
        let ghost before = texts(out@);
        let line = compose(
            "",
            configs[i].relative_path.as_str(),
            " - ",
            configs[i].config.description.as_str(),
        );
        proof {
            reveal_strlit("");
            assert(""@ + configs@[i as int].relative_path@ =~= configs@[i as int].relative_path@);
        }
        out.push(line);
        proof {
            assert(texts(out@) =~= before.push(line@));
            assert(all.take(i + 1).map_values(label) =~= all.take(i as int).map_values(label).push(
                label(all[i as int]),
            ));
        }
        i += 1;
    }
    proof {
        assert(all.take(i as int) =~= all);
    }
    out
}

/// The selection that needs no question: of a single configuration, that
/// one.
pub fn obvious_selection(count: usize) -> (out: Option<Vec<usize>>)
    ensures
        out is Some == (count == 1),
        out is Some ==> out->0@ == seq![0usize],
{
    if count == 1 {
        let mut only: Vec<usize> = Vec::new();
        only.push(0);
        Some(only)
    } else {
        None
    }
}

/// What a new branch is based on.
#[derive(Debug, Clone, Copy, PartialEq, Eq, Structural)]
pub enum BaseChoice {
    /// The commit that is checked out.
    CurrentHead,
    /// The default branch.
    DefaultBranch,
    /// A branch or reference that the user names.
    Custom,
}

/// The bases that are offered: the current head, the default branch
/// where there is one, and a custom reference.
pub open spec fn base_choices(has_default: bool) -> Seq<BaseChoice> {
    if has_default {
        seq![BaseChoice::CurrentHead, BaseChoice::DefaultBranch, BaseChoice::Custom]
    } else {
        seq![BaseChoice::CurrentHead, BaseChoice::Custom]
    }
}

/// The lines under which the bases are offered.
pub open spec fn base_labels(default_branch: Option<Seq<char>>) -> Seq<Seq<char>> {
    match default_branch {
        Some(branch) => seq!["Current HEAD"@, branch, "Enter custom branch/ref..."@],
        None => seq!["Current HEAD"@, "Enter custom branch/ref..."@],
    }
}

/// Lists the lines under which the bases of a new branch are offered.
pub fn base_branch_options(default_branch: &Option<String>) -> (out: Vec<String>)
    ensures
        texts(out@) == base_labels(optional_text(*default_branch)),
{
    let mut options: Vec<String> = Vec::new();
    options.push(String::from_str("Current HEAD"));
    match default_branch {
        Some(branch) => {
            options.push(branch.clone());
        },
        None => {},
    }
    options.push(String::from_str("Enter custom branch/ref..."));
    proof {
        assert(texts(options@) =~= base_labels(optional_text(*default_branch)));
    }
    options
}

/// Reads the answer to the question of the base, `choice` being the place
/// of the line that was picked.
pub fn base_branch_choice(has_default: bool, choice: usize) -> (out: BaseChoice)
    requires
        choice < base_choices(has_default).len(),
    ensures
        out == base_choices(has_default)[choice as int],
{
    if choice == 0 {
        BaseChoice::CurrentHead
    } else if has_default && choice == 1 {
        BaseChoice::DefaultBranch
    } else {
        BaseChoice::Custom
    }
}

/// How a working copy is to be created.
#[derive(Debug, Clone, Copy, PartialEq, Eq, Structural)]
pub enum CreationChoice {
    /// On a new branch named after the working copy.
    AutoNamed,
    /// On a new branch that the user names.
    NewBranch,
    /// On the branch that is checked out.
    CurrentBranch,
    /// On an existing branch that the user picks.
    ExistingBranch,
    /// With a detached head.
    Detached,
}

/// The ways of creation that are offered; the current branch only where
/// one is checked out.
pub open spec fn creation_choices(on_branch: bool) -> Seq<CreationChoice> {
    if on_branch {
        seq![
            CreationChoice::AutoNamed,
            CreationChoice::NewBranch,
            CreationChoice::CurrentBranch,
            CreationChoice::ExistingBranch,
            CreationChoice::Detached,
        ]
    } else {
        seq![
            CreationChoice::AutoNamed,
            CreationChoice::NewBranch,
            CreationChoice::ExistingBranch,
            CreationChoice::Detached,
        ]
    }
}

/// The lines under which the ways of creation are offered.
pub open spec fn creation_labels(name: Seq<char>, current_branch: Option<Seq<char>>) -> Seq<
    Seq<char>,
> {
    let first = seq![
        "New branch (auto-named '"@ + name + "')"@,
        "New branch (custom name)..."@,
    ];
    let last = seq!["Use existing branch..."@, "Detached HEAD (current commit)"@];
    match current_branch {
        Some(branch) => first + seq!["Use current branch ("@ + branch + ")"@] + last,
        None => first + last,
    }
}

/// The name of the working copy at `target_path`: the last component of
/// the path, or `worktree` where it has none.
pub open spec fn worktree_name_of(target_path: Seq<char>) -> Seq<char> {
    match final_component(target_path) {
        Some(name) => name,
        None => "worktree"@,
    }
}

/// The name of the working copy at `target_path`.
pub fn worktree_name(target_path: &str) -> (out: String)
    ensures
        out@ == worktree_name_of(target_path@),
{
    match file_name(target_path) {
        Some(name) => name,
        None => String::from_str("worktree"),
    }
}

/// Lists the ways in which a working copy can be created: the lines to
/// show and what each stands for.
pub fn creation_menu(name: &str, current_branch: &Option<String>) -> (out: (
    Vec<String>,
    Vec<CreationChoice>,
))
    ensures
        texts(out.0@) == creation_labels(name@, optional_text(*current_branch)),
        out.1@ == creation_choices(current_branch is Some),
{
    let mut labels: Vec<String> = Vec::new();
    let mut choices: Vec<CreationChoice> = Vec::new();
    let mut auto = String::from_str("New branch (auto-named '");
    auto.append(name);
    auto.append("')");
    labels.push(auto);
    choices.push(CreationChoice::AutoNamed);
    labels.push(String::from_str("New branch (custom name)..."));
    choices.push(CreationChoice::NewBranch);
    match current_branch {
        Some(branch) => {
            let mut current = String::from_str("Use current branch (");
            current.append(branch.as_str());
            current.append(")");
            labels.push(current);
            choices.push(CreationChoice::CurrentBranch);
        },
        None => {},
    }
    labels.push(String::from_str("Use existing branch..."));
    choices.push(CreationChoice::ExistingBranch);
    labels.push(String::from_str("Detached HEAD (current commit)"));
    choices.push(CreationChoice::Detached);
    proof {
        assert(texts(labels@) =~= creation_labels(name@, optional_text(*current_branch)));
        assert(choices@ =~= creation_choices(current_branch is Some));
    }
    (labels, choices)
}

/// The options for a new branch named `name`: based on `base` where one
/// is given, and left to version control where none is and the name is
/// that of the working copy.
pub open spec fn branch_options(
    name: Seq<char>,
    base: Option<Seq<char>>,
    named_by_user: bool,
) -> WorktreeCreateOptionsView {
    if base is Some || named_by_user {
        WorktreeCreateOptionsView { branch: base, new_branch: Some(name), detach: false }
    } else {
        WorktreeCreateOptionsView { branch: None, new_branch: None, detach: false }
    }
}

/// Options for a working copy on a new branch. A branch named after the
/// working copy and based on the current head is left to version
/// control, which names it so by itself.
pub fn new_branch_options(name: String, base: Option<String>, named_by_user: bool) -> (out:
    WorktreeCreateOptions)
    ensures
        out@ == branch_options(name@, optional_text(base), named_by_user),
{
    if base.is_some() || named_by_user {
        WorktreeCreateOptions { branch: base, new_branch: Some(name), detach: false }
    } else {
        WorktreeCreateOptions { branch: None, new_branch: None, detach: false }
    }
}

/// Options for a working copy on the existing branch `branch`, if one is
/// given; without one, the creation is left to version control.
pub fn existing_branch_options(branch: Option<String>) -> (out: WorktreeCreateOptions)
    ensures
        out@ == (WorktreeCreateOptionsView {
            branch: optional_text(branch),
            new_branch: None,
            detach: false,
        }),
{
    WorktreeCreateOptions { branch, new_branch: None, detach: false }
}

/// Options for a working copy with a detached head.
pub fn detached_options() -> (out: WorktreeCreateOptions)
    ensures
        out@ == (WorktreeCreateOptionsView { branch: None, new_branch: None, detach: true }),
{
    WorktreeCreateOptions { branch: None, new_branch: None, detach: true }
}

} // verus!
