//! What to look at before planning: one inquiry for each declaration of
//! a configuration, in the order of planning, with its place in the
//! progress of the scan.

use crate::config::LoadedConfig;
use crate::config::LoadedConfigView;
use crate::observe::PathStatus;
use crate::paths::label_of;
use crate::paths::location_of;
use crate::paths::resolve_path;
use crate::plan::OperationType;
use crate::plan::config_relative_dir;
use crate::plan::full_pattern_of;
use crate::plan::glob_search;
use crate::plan::match_target_of;
use crate::plan::place_match;
use crate::plan::relative_dir;
use crate::plan::search_dir_of;
use crate::plan::template_label;
use crate::trusted::without_prefix;
use vstd::prelude::*;
use vstd::string::*;

verus! {

/// What to look at for one declaration. For a glob pattern, `source` is
/// the pattern to expand and `target` the directory it is expanded in;
/// for every other kind they are the two paths whose state is wanted.
#[derive(Debug)]
pub struct Inquiry {
    /// Place of the declaration in the scan, counted from one.
    pub current: usize,
    /// Number of declarations in all.
    pub total: usize,
    /// Label under which the scan of the declaration is shown.
    pub label: String,
    /// Kind of the declaration.
    pub operation_type: OperationType,
    /// Path of the source, or the pattern to expand.
    pub source: String,
    /// Path of the target, or the directory of the expansion.
    pub target: String,
}

/// Mathematical form of an [`Inquiry`].
pub ghost struct InquiryView {
    pub current: int,
    pub total: int,
    pub label: Seq<char>,
    pub operation_type: OperationType,
    pub source: Seq<char>,
    pub target: Seq<char>,
}

impl View for Inquiry {
    type V = InquiryView;

    open spec fn view(&self) -> InquiryView {
        InquiryView {
            current: self.current as int,
            total: self.total as int,
            label: self.label@,
            operation_type: self.operation_type,
            source: self.source@,
            target: self.target@,
        }
    }
}

/// The views of a sequence of inquiries.
pub open spec fn inquiries_of(inquiries: Seq<Inquiry>) -> Seq<InquiryView> {
    inquiries.map_values(|inquiry: Inquiry| inquiry@)
}

/// The number of declarations of a configuration that are planned.
pub open spec fn declarations(config: LoadedConfigView) -> int {
    (config.config.symlinks.len() + config.config.copy.len() + config.config.overwrite.len()
        + config.config.copy_glob.len() + config.config.templates.len()) as int
}

/// The inquiry for the declaration at place `k`, counted from zero
/// through links, copies, overwrites, patterns and templates.
pub open spec fn inquiry_at(config: LoadedConfigView, main: Seq<char>, target_root: Seq<char>, k: int) -> InquiryView {
    let dir = relative_dir(config.config_dir, main);
    let total = declarations(config);
    let a = config.config.symlinks.len() as int;
    let b = a + config.config.copy.len();
    let c = b + config.config.overwrite.len();
    let d = c + config.config.copy_glob.len();
    if k < c {
        let (kind, declared) = if k < a {
            (OperationType::Symlink, config.config.symlinks[k])
        } else if k < b {
            (OperationType::Copy, config.config.copy[k - a])
        } else {
            (OperationType::Overwrite, config.config.overwrite[k - b])
        };
        InquiryView {
            current: k + 1,
            total,
            label: label_of(dir, declared),
            operation_type: kind,
            source: location_of(main, dir, declared),
            target: location_of(target_root, dir, declared),
        }
    } else if k < d {
        let pattern = config.config.copy_glob[k - c];
        InquiryView {
            current: k + 1,
            total,
            label: pattern,
            operation_type: OperationType::CopyGlob,
            source: full_pattern_of(main, dir, pattern),
            target: search_dir_of(main, dir, pattern),
        }
    } else {
        let template = config.config.templates[k - d];
        InquiryView {
            current: k + 1,
            total,
            label: template_label(dir, template),
            operation_type: OperationType::Template,
            source: location_of(main, dir, template.source),
            target: location_of(target_root, dir, template.target),
        }
    }
}

/// The inquiries of a configuration: one for each declaration, in the
/// order of planning.
pub open spec fn inquiries(config: LoadedConfigView, main: Seq<char>, target_root: Seq<char>) -> Seq<
    InquiryView,
> {
    Seq::new(
        declarations(config) as nat,
        |k: int| inquiry_at(config, main, target_root, k),
    )
}

/// Lists what has to be looked at before a configuration is planned.
pub fn plan_inquiries(config: &LoadedConfig, main_worktree: &str, target_worktree: &str) -> (out: Vec<
    Inquiry,
>)
    requires
        declarations(config@) <= usize::MAX,
    ensures
        inquiries_of(out@) == inquiries(config@, main_worktree@, target_worktree@),
{
    let dir_text = config_relative_dir(config.config_dir.as_str(), main_worktree);
    let dir = dir_text.as_str();
    let lists = &config.config;
    let total: usize = lists.symlinks.len() + lists.copy.len() + lists.overwrite.len()
        + lists.copy_glob.len() + lists.templates.len();
    let ghost wanted = |k: int| inquiry_at(config@, main_worktree@, target_worktree@, k);
    let mut out: Vec<Inquiry> = Vec::new();
    proof {
        assert(inquiries_of(out@) =~= Seq::new(0nat, wanted));
    }
    let mut i: usize = 0;
    while i < lists.symlinks.len()
        invariant
            i <= lists.symlinks.len(),
            lists == &config.config,
            total == declarations(config@),
            dir@ == relative_dir(config@.config_dir, main_worktree@),
            wanted == (|k: int| inquiry_at(config@, main_worktree@, target_worktree@, k)),
            inquiries_of(out@) == Seq::new(i as nat, wanted),
        decreases lists.symlinks.len() - i,
    {
        let ghost before = inquiries_of(out@);
        let (source, label) = resolve_path(main_worktree, dir, lists.symlinks[i].as_str());
        let (target, _) = resolve_path(target_worktree, dir, lists.symlinks[i].as_str());
        let inquiry = Inquiry {
            current: i + 1,
            total,
            label,
            operation_type: OperationType::Symlink,
            source,
            target,
        };
        out.push(inquiry);
        proof {
            assert(config@.config.symlinks[i as int] == lists.symlinks@[i as int]@);
            assert(inquiries_of(out@) =~= before.push(inquiry@));
            assert(inquiries_of(out@) =~= Seq::new((i + 1) as nat, wanted));
        }
        i += 1;
    }
    let a: usize = lists.symlinks.len();
    let mut i: usize = 0;
    while i < lists.copy.len()
        invariant
            i <= lists.copy.len(),
            lists == &config.config,
            a == lists.symlinks.len(),
            total == declarations(config@),
            dir@ == relative_dir(config@.config_dir, main_worktree@),
            wanted == (|k: int| inquiry_at(config@, main_worktree@, target_worktree@, k)),
            inquiries_of(out@) == Seq::new((a + i) as nat, wanted),
        decreases lists.copy.len() - i,
    {
        let ghost before = inquiries_of(out@);
        let (source, label) = resolve_path(main_worktree, dir, lists.copy[i].as_str());
        let (target, _) = resolve_path(target_worktree, dir, lists.copy[i].as_str());
        let inquiry = Inquiry {
            current: a + i + 1,
            total,
            label,
            operation_type: OperationType::Copy,
            source,
            target,
        };
        out.push(inquiry);
        proof {
            assert(config@.config.copy[i as int] == lists.copy@[i as int]@);
            assert(inquiries_of(out@) =~= before.push(inquiry@));
            assert(inquiries_of(out@) =~= Seq::new((a + i + 1) as nat, wanted));
        }
        i += 1;
    }
    let b: usize = a + lists.copy.len();
    let mut i: usize = 0;
    while i < lists.overwrite.len()
        invariant
            i <= lists.overwrite.len(),
            lists == &config.config,
            a == lists.symlinks.len(),
            b == a + lists.copy.len(),
            total == declarations(config@),
            dir@ == relative_dir(config@.config_dir, main_worktree@),
            wanted == (|k: int| inquiry_at(config@, main_worktree@, target_worktree@, k)),
            inquiries_of(out@) == Seq::new((b + i) as nat, wanted),
        decreases lists.overwrite.len() - i,
    {
        let ghost before = inquiries_of(out@);
        let (source, label) = resolve_path(main_worktree, dir, lists.overwrite[i].as_str());
        let (target, _) = resolve_path(target_worktree, dir, lists.overwrite[i].as_str());
        let inquiry = Inquiry {
            current: b + i + 1,
            total,
            label,
            operation_type: OperationType::Overwrite,
            source,
            target,
        };
        out.push(inquiry);
        proof {
            assert(config@.config.overwrite[i as int] == lists.overwrite@[i as int]@);
            assert(inquiries_of(out@) =~= before.push(inquiry@));
            assert(inquiries_of(out@) =~= Seq::new((b + i + 1) as nat, wanted));
        }
        i += 1;
    }
    let c: usize = b + lists.overwrite.len();
    let mut i: usize = 0;
    while i < lists.copy_glob.len()
        invariant
            i <= lists.copy_glob.len(),
            lists == &config.config,
            a == lists.symlinks.len(),
            b == a + lists.copy.len(),
            c == b + lists.overwrite.len(),
            total == declarations(config@),
            dir@ == relative_dir(config@.config_dir, main_worktree@),
            wanted == (|k: int| inquiry_at(config@, main_worktree@, target_worktree@, k)),
            inquiries_of(out@) == Seq::new((c + i) as nat, wanted),
        decreases lists.copy_glob.len() - i,
    {
        let ghost before = inquiries_of(out@);
        let (search_dir, full) = glob_search(main_worktree, dir, lists.copy_glob[i].as_str());
        let inquiry = Inquiry {
            current: c + i + 1,
            total,
            label: lists.copy_glob[i].clone(),
            operation_type: OperationType::CopyGlob,
            source: full,
            target: search_dir,
        };
        out.push(inquiry);
        proof {
            assert(config@.config.copy_glob[i as int] == lists.copy_glob@[i as int]@);
            assert(inquiries_of(out@) =~= before.push(inquiry@));
            assert(inquiries_of(out@) =~= Seq::new((c + i + 1) as nat, wanted));
        }
        i += 1;
    }
    let d: usize = c + lists.copy_glob.len();
    let mut i: usize = 0;
    while i < lists.templates.len()
        invariant
            i <= lists.templates.len(),
            lists == &config.config,
            a == lists.symlinks.len(),
            b == a + lists.copy.len(),
            c == b + lists.overwrite.len(),
            d == c + lists.copy_glob.len(),
            total == declarations(config@),
            dir@ == relative_dir(config@.config_dir, main_worktree@),
            wanted == (|k: int| inquiry_at(config@, main_worktree@, target_worktree@, k)),
            inquiries_of(out@) == Seq::new((d + i) as nat, wanted),
        decreases lists.templates.len() - i,
    {
        let ghost before = inquiries_of(out@);
        let template = &lists.templates[i];
        let (source, source_label) = resolve_path(main_worktree, dir, template.source.as_str());
        let (target, target_label) = resolve_path(target_worktree, dir, template.target.as_str());
        let mut label = source_label;
        label.append(" -> ");
        label.append(target_label.as_str());
        let inquiry = Inquiry {
            current: d + i + 1,
            total,
            label,
            operation_type: OperationType::Template,
            source,
            target,
        };
        out.push(inquiry);
        proof {
            assert(config@.config.templates[i as int] == lists.templates@[i as int]@);
            assert(inquiries_of(out@) =~= before.push(inquiry@));
            assert(inquiries_of(out@) =~= Seq::new((d + i + 1) as nat, wanted));
        }
        i += 1;
    }
    out
}

/// Where a file that `pattern` matched goes, if the file lies in the
/// directory in which the pattern was expanded.
pub fn match_target(main: &str, target_root: &str, dir: &str, pattern: &str, found: &str) -> (out:
    Option<String>)
    ensures
        out is Some == without_prefix(found@, search_dir_of(main@, dir@, pattern@)) is Some,
        out is Some ==> out->0@ == match_target_of(
            target_root@,
            dir@,
            pattern@,
            without_prefix(found@, search_dir_of(main@, dir@, pattern@))->0,
        ),
{
    match place_match(main, target_root, dir, pattern, found) {
        Some((_, target)) => Some(target),
        None => None,
    }
}

/// Whether the files at the source of a declaration have to be counted
/// before it is planned: for a copy whose source is a directory and whose
/// target is absent, and for an overwrite whose source is a directory.
pub fn count_wanted(kind: OperationType, source: PathStatus, target: PathStatus) -> (out: bool)
    ensures
        out == (source.exists && source.is_dir && (kind == OperationType::Overwrite || (kind
            == OperationType::Copy && !target.exists))),
{
    let counted = match kind {
        OperationType::Overwrite => true,
        OperationType::Copy => !target.exists,
        _ => false,
    };
    source.exists && source.is_dir && counted
}

} // verus!
