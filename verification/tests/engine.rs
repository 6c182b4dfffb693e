//! The engine driven against a disk held in memory: the tests look at the
//! disk, hand the library what they saw, and carry out what it decides.

use std::collections::BTreeMap;

use worktree_setup::apply::apply_config;
use worktree_setup::apply::apply_item;
use worktree_setup::apply::matched_items;
use worktree_setup::apply::Stage;
use worktree_setup::apply::ApplyResult;
use worktree_setup::config::Config;
use worktree_setup::config::LoadedConfig;
use worktree_setup::config::TemplateMapping;
use worktree_setup::execute::copy_directory;
use worktree_setup::execute::copy_file;
use worktree_setup::execute::create_symlink;
use worktree_setup::execute::execute_operation;
use worktree_setup::execute::needs_walk;
use worktree_setup::execute::overwrite_file;
use worktree_setup::execute::Execution;
use worktree_setup::execute::Step;
use worktree_setup::observe::PathStatus;
use worktree_setup::observe::Snapshot;
use worktree_setup::outcome::OperationResult;
use worktree_setup::plan::plan_operations;
use worktree_setup::plan::plan_unstaged_operations;
use worktree_setup::apply::ApplyConfigOptions;
use worktree_setup::plan::OperationType;
use worktree_setup::plan::PlannedOperation;
use worktree_setup::scan::count_wanted;
use worktree_setup::scan::match_target;
use worktree_setup::scan::plan_inquiries;
use worktree_setup::transfer::count_files;
use worktree_setup::transfer::count_files_with_progress;
use worktree_setup::transfer::entry_action;
use worktree_setup::transfer::report_due;
use worktree_setup::transfer::Action;
use worktree_setup::transfer::CopyResult;
use worktree_setup::transfer::EntryKind;
use worktree_setup::transfer::Transfer;
use worktree_setup::transfer::Walked;

#[derive(Clone, Debug, PartialEq)]
enum Node {
    File(String),
    Dir,
    Link(String),
}

#[derive(Clone, Debug, Default)]
struct Disk {
    nodes: BTreeMap<String, Node>,
}

fn parent_of(path: &str) -> Option<String> {
    std::path::Path::new(path).parent().map(|dir| dir.to_string_lossy().into_owned())
}

impl Disk {
    fn new(roots: &[&str]) -> Disk {
        let mut disk = Disk::default();
        for root in roots {
            disk.create_dir_all(root);
        }
        disk
    }

    fn create_dir_all(&mut self, path: &str) {
        if path.is_empty() || path == "/" {
            return;
        }
        if let Some(dir) = parent_of(path) {
            self.create_dir_all(&dir);
        }
        self.nodes.entry(path.to_string()).or_insert(Node::Dir);
    }

    fn write(&mut self, path: &str, content: &str) {
        if let Some(dir) = parent_of(path) {
            self.create_dir_all(&dir);
        }
        self.nodes.insert(path.to_string(), Node::File(content.to_string()));
    }

    fn link(&mut self, path: &str, to: &str) {
        self.nodes.insert(path.to_string(), Node::Link(to.to_string()));
    }

    fn read(&self, path: &str) -> Option<String> {
        match self.resolve(path) {
            Some(Node::File(content)) => Some(content),
            _ => None,
        }
    }

    fn read_link(&self, path: &str) -> Option<String> {
        match self.nodes.get(path) {
            Some(Node::Link(to)) => Some(to.clone()),
            _ => None,
        }
    }

    fn resolve(&self, path: &str) -> Option<Node> {
        if let Some(node) = self.nodes.get(path) {
            return match node {
                Node::Link(to) => self.resolve(to),
                other => Some(other.clone()),
            };
        }
        // A path below a link to a directory is reached through the link.
        let mut dir = parent_of(path);
        while let Some(current) = dir {
            if let Some(Node::Link(to)) = self.nodes.get(&current) {
                let rest = &path[current.len()..];
                return self.resolve(&format!("{to}{rest}"));
            }
            dir = parent_of(&current);
        }
        None
    }

    fn status(&self, path: &str) -> PathStatus {
        let reached = self.resolve(path);
        PathStatus {
            exists: reached.is_some(),
            is_file: matches!(reached, Some(Node::File(_))),
            is_dir: matches!(reached, Some(Node::Dir)),
            is_symlink: matches!(self.nodes.get(path), Some(Node::Link(_))),
        }
    }

    fn walk(&self, root: &str) -> Vec<Walked> {
        let below = format!("{root}/");
        let mut walked = vec![Walked::Entry { path: root.to_string(), kind: EntryKind::Directory }];
        for (path, node) in &self.nodes {
            if path.starts_with(&below) {
                let kind = match node {
                    Node::File(_) => EntryKind::File,
                    Node::Dir => EntryKind::Directory,
                    Node::Link(_) => EntryKind::Symlink,
                };
                walked.push(Walked::Entry { path: path.clone(), kind });
            }
        }
        walked
    }

    fn remove_all(&mut self, path: &str) {
        let below = format!("{path}/");
        self.nodes.retain(|key, _| key != path && !key.starts_with(&below));
    }

    fn perform(&mut self, action: &Action) -> Result<(), String> {
        match action {
            Action::CreateDirAll { path } => {
                self.create_dir_all(path);
                Ok(())
            }
            Action::CopyFile { source, target } => {
                let content = self.read(source).ok_or("no such file")?;
                match parent_of(target) {
                    Some(dir) if !dir.is_empty() && !self.status(&dir).is_dir => {
                        return Err("no parent directory".to_string());
                    }
                    _ => {}
                }
                self.nodes.insert(target.clone(), Node::File(content));
                Ok(())
            }
            Action::CopySymlink { source, target } => {
                let to = self.read_link(source).ok_or("not a link")?;
                self.nodes.insert(target.clone(), Node::Link(to));
                Ok(())
            }
        }
    }

    fn step(&mut self, step: &Step) -> Result<(), String> {
        match step {
            Step::CreateDirAll { path } => {
                self.create_dir_all(path);
                Ok(())
            }
            Step::RemoveFile { path } => {
                self.nodes.remove(path).map(|_| ()).ok_or("no such file".to_string())
            }
            Step::RemoveDirAll { path } => {
                self.remove_all(path);
                Ok(())
            }
            Step::Symlink { source, target } => {
                if self.nodes.contains_key(target) {
                    return Err("file exists".to_string());
                }
                self.nodes.insert(target.clone(), Node::Link(source.clone()));
                Ok(())
            }
        }
    }

    /// Carries out a transfer; returns the progress reports it made.
    fn transfer(&mut self, transfer: &Transfer) -> Vec<(u64, u64)> {
        let mut reports = Vec::new();
        for report in &transfer.announce {
            reports.push((report.files_copied, report.files_total));
        }
        for action in &transfer.prepare {
            self.perform(action).unwrap();
        }
        let total = transfer.entries.len() as u64;
        let mut copied = 0;
        for entry in &transfer.entries {
            self.perform(&entry_action(entry)).unwrap();
            copied += 1;
            if report_due(copied, total) {
                reports.push((copied, total));
            }
        }
        for report in &transfer.conclude {
            reports.push((report.files_copied, report.files_total));
        }
        reports
    }

    /// Carries out an execution; returns its outcome and the progress
    /// reports it made.
    fn run(&mut self, execution: &Execution) -> (OperationResult, Vec<(u64, u64)>) {
        let mut reports = Vec::new();
        for step in &execution.steps {
            self.step(step).unwrap();
        }
        for report in &execution.announce {
            reports.push((report.files_copied, report.files_total));
        }
        for action in &execution.prepare {
            self.perform(action).unwrap();
        }
        let total = execution.entries.len() as u64;
        let mut copied = 0;
        for entry in &execution.entries {
            self.perform(&entry_action(entry)).unwrap();
            copied += 1;
            if report_due(copied, total) {
                reports.push((copied, total));
            }
        }
        for report in &execution.conclude {
            reports.push((report.files_copied, report.files_total));
        }
        (execution.result, reports)
    }

    fn copy_file(&mut self, source: &str, target: &str) -> (CopyResult, Vec<(u64, u64)>) {
        let transfer = worktree_setup::transfer::copy_file(
            source,
            target,
            self.status(source).exists,
            self.status(target).exists,
        );
        let reports = self.transfer(&transfer);
        (transfer.result, reports)
    }

    fn overwrite_file(&mut self, source: &str, target: &str) -> CopyResult {
        let transfer =
            worktree_setup::transfer::overwrite_file(source, target, self.status(source).exists);
        self.transfer(&transfer);
        transfer.result
    }

    fn copy_directory(&mut self, source: &str, target: &str) -> (CopyResult, Vec<(u64, u64)>) {
        let source_exists = self.status(source).exists;
        let target_exists = self.status(target).exists;
        let walked = if worktree_setup::transfer::needs_walk(source_exists, target_exists) {
            self.walk(source)
        } else {
            Vec::new()
        };
        let transfer = worktree_setup::transfer::copy_directory(
            source,
            target,
            source_exists,
            target_exists,
            &walked,
        )
        .unwrap();
        let reports = self.transfer(&transfer);
        (transfer.result, reports)
    }

    /// Looks at everything that planning `config` asks for.
    fn observe(&self, config: &LoadedConfig, main: &str, target: &str) -> (Snapshot, Vec<(usize, usize, String)>) {
        let mut seen = Snapshot::new();
        let mut calls = Vec::new();
        for inquiry in plan_inquiries(config, main, target) {
            calls.push((inquiry.current, inquiry.total, inquiry.label.clone()));
            if inquiry.operation_type == OperationType::CopyGlob {
                continue;
            }
            let source = self.status(&inquiry.source);
            let target_status = self.status(&inquiry.target);
            if count_wanted(inquiry.operation_type, source, target_status) {
                let count = count_files(&inquiry.source, source, &self.walk(&inquiry.source));
                seen.record(inquiry.source.clone(), source, count);
            } else {
                seen.record_status(inquiry.source.clone(), source);
            }
            seen.record_status(inquiry.target.clone(), target_status);
        }
        (seen, calls)
    }

    fn plan(&self, config: &LoadedConfig, main: &str, target: &str) -> Vec<PlannedOperation> {
        let (seen, _) = self.observe(config, main, target);
        plan_operations(config, main, target, &ApplyConfigOptions::default(), &seen).unwrap()
    }

    fn execute(&mut self, operation: &PlannedOperation) -> (OperationResult, Vec<(u64, u64)>) {
        let source = self.status(&operation.source);
        let target = self.status(&operation.target);
        let walked = if needs_walk(operation, source, target) {
            self.walk(&operation.source)
        } else {
            Vec::new()
        };
        let execution = execute_operation(operation, source, target, &walked).unwrap();
        self.run(&execution)
    }

    /// Applies a configuration; `expansions` gives the files that each
    /// pattern matches by the time it is expanded.
    fn apply_with(
        &mut self,
        config: &LoadedConfig,
        main: &str,
        target: &str,
        expansions: &[(&str, Vec<String>)],
    ) -> Result<ApplyResult, String> {
        let mut result = ApplyResult::default();
        for stage in apply_config(config, main, target) {
            let items = match stage {
                Stage::Items(items) => items,
                Stage::Expand { pattern, full_pattern } => {
                    let found = expansions
                        .iter()
                        .find(|(expanded, _)| *expanded == full_pattern)
                        .map(|(_, found)| found.clone())
                        .unwrap_or_default();
                    matched_items(config, main, target, &pattern, &found)
                }
                Stage::Fail(error) => return Err(error.message()),
            };
            for item in &items {
                let source = self.status(&item.source);
                let target = self.status(&item.target);
                if let Some(execution) = apply_item(item, source, target) {
                    let (outcome, _) = self.run(&execution);
                    result.record(item.operation_type, item.path.clone(), outcome);
                }
            }
        }
        Ok(result)
    }

    fn apply(&mut self, config: &LoadedConfig, main: &str, target: &str) -> ApplyResult {
        self.apply_with(config, main, target, &[]).unwrap()
    }
}

fn create_test_config(dir: &str) -> LoadedConfig {
    LoadedConfig {
        config: Config {
            description: "Test".to_string(),
            symlinks: vec!["data".to_string()],
            copy: vec!["config.json".to_string()],
            overwrite: vec!["settings.json".to_string()],
            ..Default::default()
        },
        config_path: format!("{dir}/worktree.config.toml"),
        config_dir: dir.to_string(),
        relative_path: "worktree.config.toml".to_string(),
    }
}

fn config_at(dir: &str, relative_path: &str, config: Config) -> LoadedConfig {
    LoadedConfig {
        config,
        config_path: format!("{dir}/worktree.config.toml"),
        config_dir: dir.to_string(),
        relative_path: relative_path.to_string(),
    }
}

#[test]
fn test_copy_file_creates_new() {
    let mut disk = Disk::new(&["/tmp/dir"]);
    disk.write("/tmp/dir/source.txt", "hello world");

    let (result, reports) = disk.copy_file("/tmp/dir/source.txt", "/tmp/dir/target.txt");

    assert!(matches!(result, CopyResult::Created { files_copied: 1 }));
    assert!(disk.status("/tmp/dir/target.txt").exists);
    assert_eq!(disk.read("/tmp/dir/target.txt").unwrap(), "hello world");
    assert!(reports.len() >= 1);
    assert_eq!(reports, vec![(0, 1), (1, 1)]);
}

#[test]
fn copy_test_copy_file_exists() {
    let mut disk = Disk::new(&["/tmp/dir"]);
    disk.write("/tmp/dir/source.txt", "source content");
    disk.write("/tmp/dir/target.txt", "target content");

    let (result, _) = disk.copy_file("/tmp/dir/source.txt", "/tmp/dir/target.txt");

    assert_eq!(result, CopyResult::Exists);
    assert_eq!(disk.read("/tmp/dir/target.txt").unwrap(), "target content");
}

#[test]
fn test_copy_file_source_not_found() {
    let mut disk = Disk::new(&["/tmp/dir"]);

    let (result, _) = disk.copy_file("/tmp/dir/nonexistent.txt", "/tmp/dir/target.txt");

    assert_eq!(result, CopyResult::SourceNotFound);
    assert!(!disk.status("/tmp/dir/target.txt").exists);
}

#[test]
fn copy_test_copy_directory() {
    let mut disk = Disk::new(&["/tmp/dir"]);
    disk.create_dir_all("/tmp/dir/source_dir/subdir");
    disk.write("/tmp/dir/source_dir/file1.txt", "content1");
    disk.write("/tmp/dir/source_dir/subdir/file2.txt", "content2");

    let (result, reports) = disk.copy_directory("/tmp/dir/source_dir", "/tmp/dir/target_dir");

    assert!(matches!(result, CopyResult::Created { files_copied: 2 }));
    assert!(disk.status("/tmp/dir/target_dir/file1.txt").exists);
    assert!(disk.status("/tmp/dir/target_dir/subdir/file2.txt").exists);
    assert_eq!(disk.read("/tmp/dir/target_dir/file1.txt").unwrap(), "content1");
    assert_eq!(disk.read("/tmp/dir/target_dir/subdir/file2.txt").unwrap(), "content2");
    assert_eq!(reports, vec![(0, 2), (2, 2), (2, 2)]);
}

#[test]
fn test_copy_directory_exists() {
    let mut disk = Disk::new(&["/tmp/dir"]);
    disk.create_dir_all("/tmp/dir/source_dir");
    disk.create_dir_all("/tmp/dir/target_dir");

    let (result, _) = disk.copy_directory("/tmp/dir/source_dir", "/tmp/dir/target_dir");

    assert_eq!(result, CopyResult::Exists);
}

#[test]
fn copy_test_overwrite_file() {
    let mut disk = Disk::new(&["/tmp/dir"]);
    disk.write("/tmp/dir/source.txt", "new content");
    disk.write("/tmp/dir/target.txt", "old content");

    let result = disk.overwrite_file("/tmp/dir/source.txt", "/tmp/dir/target.txt");

    assert!(matches!(result, CopyResult::Created { files_copied: 1 }));
    assert_eq!(disk.read("/tmp/dir/target.txt").unwrap(), "new content");
}

#[test]
fn test_copy_file() {
    let mut disk = Disk::new(&["/tmp/dir"]);
    disk.write("/tmp/dir/source.txt", "content");

    let execution = copy_file(
        "/tmp/dir/source.txt",
        "/tmp/dir/target.txt",
        disk.status("/tmp/dir/source.txt").exists,
        disk.status("/tmp/dir/target.txt").exists,
    );
    let (result, _) = disk.run(&execution);

    assert_eq!(result, OperationResult::Created);
    assert!(disk.status("/tmp/dir/target.txt").exists);
    assert_eq!(disk.read("/tmp/dir/target.txt").unwrap(), "content");
}

#[test]
fn test_copy_file_exists() {
    let mut disk = Disk::new(&["/tmp/dir"]);
    disk.write("/tmp/dir/source.txt", "source content");
    disk.write("/tmp/dir/target.txt", "target content");

    let execution = copy_file("/tmp/dir/source.txt", "/tmp/dir/target.txt", true, true);
    let (result, _) = disk.run(&execution);

    assert_eq!(result, OperationResult::Exists);
    assert_eq!(disk.read("/tmp/dir/target.txt").unwrap(), "target content");
}

#[test]
fn test_overwrite_file() {
    let mut disk = Disk::new(&["/tmp/dir"]);
    disk.write("/tmp/dir/source.txt", "new content");
    disk.write("/tmp/dir/target.txt", "old content");

    let execution = overwrite_file(
        "/tmp/dir/source.txt",
        "/tmp/dir/target.txt",
        disk.status("/tmp/dir/source.txt").exists,
        disk.status("/tmp/dir/target.txt").exists,
    );
    let (result, _) = disk.run(&execution);

    assert_eq!(result, OperationResult::Overwritten);
    assert_eq!(disk.read("/tmp/dir/target.txt").unwrap(), "new content");
}

#[test]
fn test_copy_directory() {
    let mut disk = Disk::new(&["/tmp/dir"]);
    disk.write("/tmp/dir/source_dir/file.txt", "content");
    disk.write("/tmp/dir/source_dir/subdir/nested.txt", "nested");

    let walked = disk.walk("/tmp/dir/source_dir");
    let execution =
        copy_directory("/tmp/dir/source_dir", "/tmp/dir/target_dir", true, false, &walked).unwrap();
    let (result, _) = disk.run(&execution);

    assert_eq!(result, OperationResult::Created);
    assert!(disk.status("/tmp/dir/target_dir/file.txt").exists);
    assert!(disk.status("/tmp/dir/target_dir/subdir/nested.txt").exists);
}

#[test]
fn test_create_symlink() {
    let mut disk = Disk::new(&["/tmp/dir"]);
    disk.write("/tmp/dir/source", "content");

    let execution = create_symlink(
        "/tmp/dir/source",
        "/tmp/dir/target",
        disk.status("/tmp/dir/source").exists,
        disk.status("/tmp/dir/target"),
    );
    let (result, _) = disk.run(&execution);

    assert_eq!(result, OperationResult::Created);
    assert!(disk.status("/tmp/dir/target").is_symlink);
    assert_eq!(disk.read_link("/tmp/dir/target").unwrap(), "/tmp/dir/source");
}

#[test]
fn test_create_symlink_exists() {
    let mut disk = Disk::new(&["/tmp/dir"]);
    disk.write("/tmp/dir/source", "content");

    let first = create_symlink("/tmp/dir/source", "/tmp/dir/target", true, disk.status("/tmp/dir/target"));
    disk.run(&first);

    let second =
        create_symlink("/tmp/dir/source", "/tmp/dir/target", true, disk.status("/tmp/dir/target"));
    let (result, _) = disk.run(&second);
    assert_eq!(result, OperationResult::Exists);
    assert!(second.steps.is_empty());
}

#[test]
fn test_create_symlink_source_missing() {
    let mut disk = Disk::new(&["/tmp/dir"]);

    let execution = create_symlink(
        "/tmp/dir/nonexistent",
        "/tmp/dir/target",
        disk.status("/tmp/dir/nonexistent").exists,
        disk.status("/tmp/dir/target"),
    );
    let (result, _) = disk.run(&execution);

    assert_eq!(result, OperationResult::Skipped);
    assert!(!disk.status("/tmp/dir/target").is_symlink);
}

#[test]
fn create_symlink_replaces_what_occupies_the_target() {
    let mut disk = Disk::new(&["/tmp/dir"]);
    disk.write("/tmp/dir/source", "content");
    disk.write("/tmp/dir/target/inner.txt", "old");

    let execution =
        create_symlink("/tmp/dir/source", "/tmp/dir/target", true, disk.status("/tmp/dir/target"));
    assert!(matches!(execution.steps[1], Step::RemoveDirAll { .. }));
    let (result, _) = disk.run(&execution);
    assert_eq!(result, OperationResult::Created);
    assert_eq!(disk.read_link("/tmp/dir/target").unwrap(), "/tmp/dir/source");

    disk.write("/tmp/dir/plain", "old");
    let execution =
        create_symlink("/tmp/dir/source", "/tmp/dir/plain", true, disk.status("/tmp/dir/plain"));
    assert!(matches!(execution.steps[1], Step::RemoveFile { .. }));
    disk.run(&execution);
    assert_eq!(disk.read_link("/tmp/dir/plain").unwrap(), "/tmp/dir/source");
}

#[test]
fn test_apply_config_symlinks() {
    let mut disk = Disk::new(&["/main", "/target"]);
    disk.write("/main/data/file.txt", "content");

    let config = create_test_config("/main");
    let result = disk.apply(&config, "/main", "/target");

    assert_eq!(result.symlinks.len(), 1);
    assert_eq!(result.symlinks[0].result, OperationResult::Created);
    assert!(disk.status("/target/data").is_symlink);
}

#[test]
fn test_apply_config_copies() {
    let mut disk = Disk::new(&["/main", "/target"]);
    disk.write("/main/config.json", "{}");

    let config = create_test_config("/main");
    let result = disk.apply(&config, "/main", "/target");

    assert!(!result.copies.is_empty());
    assert!(disk.status("/target/config.json").exists);
}

#[test]
fn test_plan_operations_basic() {
    let mut disk = Disk::new(&["/main", "/target"]);
    disk.create_dir_all("/main/data");
    disk.write("/main/config.json", "{}");
    disk.write("/main/settings.json", "{}");

    let config = create_test_config("/main");
    let ops = disk.plan(&config, "/main", "/target");

    assert_eq!(ops.len(), 3);
    assert_eq!(ops[0].operation_type, OperationType::Symlink);
    assert_eq!(ops[1].operation_type, OperationType::Copy);
    assert_eq!(ops[2].operation_type, OperationType::Overwrite);
}

#[test]
fn test_plan_operations_skip_existing() {
    let mut disk = Disk::new(&["/main", "/target"]);
    disk.write("/main/config.json", "{}");
    disk.write("/target/config.json", "existing");

    let config = config_at(
        "/main",
        "worktree.config.toml",
        Config { copy: vec!["config.json".to_string()], ..Default::default() },
    );
    let ops = disk.plan(&config, "/main", "/target");

    assert_eq!(ops.len(), 1);
    assert!(ops[0].will_skip);
    assert_eq!(ops[0].skip_reason, Some("exists".to_string()));
}

#[test]
fn test_plan_operations_directory_file_count() {
    let mut disk = Disk::new(&["/main", "/target"]);
    disk.write("/main/data/file1.txt", "1");
    disk.write("/main/data/file2.txt", "2");
    disk.write("/main/data/subdir/file3.txt", "3");

    let config = config_at(
        "/main",
        "worktree.config.toml",
        Config { copy: vec!["data".to_string()], ..Default::default() },
    );
    let ops = disk.plan(&config, "/main", "/target");

    assert_eq!(ops.len(), 1);
    assert!(ops[0].is_directory);
    assert_eq!(ops[0].file_count, 3);
}

#[test]
fn test_plan_operations_with_progress_callback() {
    let mut disk = Disk::new(&["/main", "/target"]);
    disk.create_dir_all("/main/data");
    disk.write("/main/config.json", "{}");

    let config = config_at(
        "/main",
        "worktree.config.toml",
        Config {
            symlinks: vec!["data".to_string()],
            copy: vec!["config.json".to_string()],
            ..Default::default()
        },
    );

    let (seen, calls) = disk.observe(&config, "/main", "/target");
    let ops =
        plan_operations(&config, "/main", "/target", &ApplyConfigOptions::default(), &seen).unwrap();

    assert_eq!(ops.len(), 2);
    assert_eq!(calls.len(), 2);
    assert_eq!(calls[0], (1, 2, "data".to_string()));
    assert_eq!(calls[1], (2, 2, "config.json".to_string()));
}

#[test]
fn test_plan_unstaged_operations() {
    let mut disk = Disk::new(&["/main", "/target"]);
    disk.write("/main/modified.txt", "content");
    disk.write("/main/untracked.txt", "content");

    let unstaged = vec!["modified.txt".to_string(), "untracked.txt".to_string()];
    let mut seen = Snapshot::new();
    for file in &unstaged {
        let path = format!("/main/{file}");
        seen.record(path.clone(), disk.status(&path), 0);
    }
    let ops = plan_unstaged_operations(&unstaged, "/main", "/target", &seen);

    assert_eq!(ops.len(), 2);
    assert_eq!(ops[0].operation_type, OperationType::Unstaged);
    assert_eq!(ops[1].operation_type, OperationType::Unstaged);
}

#[test]
fn plan_unstaged_leaves_out_deleted_files() {
    let mut disk = Disk::new(&["/main", "/target"]);
    disk.write("/main/kept.txt", "content");

    let unstaged = vec!["gone.txt".to_string(), "kept.txt".to_string()];
    let mut seen = Snapshot::new();
    for file in &unstaged {
        let path = format!("/main/{file}");
        seen.record(path.clone(), disk.status(&path), 0);
    }
    let ops = plan_unstaged_operations(&unstaged, "/main", "/target", &seen);

    assert_eq!(ops.len(), 1);
    assert_eq!(ops[0].display_path, "kept.txt");
    assert_eq!(ops[0].source, "/main/kept.txt");
    assert_eq!(ops[0].target, "/target/kept.txt");
    assert_eq!(ops[0].file_count, 1);
    assert!(!ops[0].will_skip);
    assert_eq!(ops[0].skip_reason, None);
}

#[test]
fn test_plan_operations_repo_root_relative_paths() {
    let mut disk = Disk::new(&["/main", "/target"]);
    disk.write("/main/.nix/flake.nix", "{}");
    disk.write("/main/.envrc", "use flake");
    disk.create_dir_all("/main/apps/myapp");

    let config = config_at(
        "/main/apps/myapp",
        "apps/myapp/worktree.config.toml",
        Config { copy: vec!["/.nix".to_string(), "/.envrc".to_string()], ..Default::default() },
    );
    let ops = disk.plan(&config, "/main", "/target");

    assert_eq!(ops.len(), 2);

    assert_eq!(ops[0].display_path, ".nix");
    assert_eq!(ops[0].source, "/main/.nix");
    assert_eq!(ops[0].target, "/target/.nix");
    assert!(ops[0].is_directory);
    assert!(!ops[0].will_skip);

    assert_eq!(ops[1].display_path, ".envrc");
    assert_eq!(ops[1].source, "/main/.envrc");
    assert_eq!(ops[1].target, "/target/.envrc");
    assert!(!ops[1].is_directory);
    assert!(!ops[1].will_skip);
}

#[test]
fn test_plan_operations_mixed_paths() {
    let mut disk = Disk::new(&["/main", "/target"]);
    disk.write("/main/.envrc", "use flake");
    disk.write("/main/apps/myapp/local.config", "app config");

    let config = config_at(
        "/main/apps/myapp",
        "apps/myapp/worktree.config.toml",
        Config {
            copy: vec!["/.envrc".to_string(), "local.config".to_string()],
            ..Default::default()
        },
    );
    let ops = disk.plan(&config, "/main", "/target");

    assert_eq!(ops.len(), 2);

    assert_eq!(ops[0].display_path, ".envrc");
    assert_eq!(ops[0].source, "/main/.envrc");
    assert_eq!(ops[0].target, "/target/.envrc");

    assert_eq!(ops[1].display_path, "apps/myapp/local.config");
    assert_eq!(ops[1].source, "/main/apps/myapp/local.config");
    assert_eq!(ops[1].target, "/target/apps/myapp/local.config");
}

#[test]
fn test_plan_operations_template_with_root_paths() {
    let mut disk = Disk::new(&["/main", "/target"]);
    disk.write("/main/.env.template", "KEY=value");
    disk.create_dir_all("/main/apps/myapp");

    let config = config_at(
        "/main/apps/myapp",
        "apps/myapp/worktree.config.toml",
        Config {
            templates: vec![TemplateMapping {
                source: "/.env.template".to_string(),
                target: ".env.local".to_string(),
            }],
            ..Default::default()
        },
    );
    let ops = disk.plan(&config, "/main", "/target");

    assert_eq!(ops.len(), 1);
    assert_eq!(ops[0].operation_type, OperationType::Template);
    assert_eq!(ops[0].display_path, ".env.template -> apps/myapp/.env.local");
    assert_eq!(ops[0].source, "/main/.env.template");
    assert_eq!(ops[0].target, "/target/apps/myapp/.env.local");
    assert_eq!(ops[0].file_count, 1);
    assert!(!ops[0].will_skip);
}

#[test]
fn plan_skips_with_the_right_reason() {
    let mut disk = Disk::new(&["/main", "/target"]);
    disk.write("/main/present.txt", "new");
    disk.write("/target/present.txt", "old");

    let config = config_at(
        "/main",
        "worktree.config.toml",
        Config {
            symlinks: vec!["absent".to_string(), "present.txt".to_string()],
            copy: vec!["absent.txt".to_string(), "present.txt".to_string()],
            overwrite: vec!["absent.txt".to_string(), "present.txt".to_string()],
            ..Default::default()
        },
    );
    let ops = disk.plan(&config, "/main", "/target");

    assert_eq!(ops.len(), 6);
    assert!(ops[0].will_skip);
    assert_eq!(ops[0].skip_reason, Some("not found".to_string()));
    assert!(ops[1].will_skip);
    assert_eq!(ops[1].skip_reason, Some("exists".to_string()));
    assert_eq!(ops[1].file_count, 0);
    assert!(ops[2].will_skip);
    assert_eq!(ops[2].skip_reason, Some("not found".to_string()));
    assert!(ops[3].will_skip);
    assert_eq!(ops[3].skip_reason, Some("exists".to_string()));
    assert!(ops[4].will_skip);
    assert_eq!(ops[4].skip_reason, Some("not found".to_string()));
    assert!(!ops[5].will_skip);
    assert_eq!(ops[5].skip_reason, None);
    assert_eq!(ops[5].file_count, 1);
}

#[test]
fn plan_skips_a_link_onto_a_dangling_link() {
    let mut disk = Disk::new(&["/main", "/target"]);
    disk.create_dir_all("/main/data");
    disk.link("/target/data", "/nowhere");
    assert!(!disk.status("/target/data").exists);

    let config = config_at(
        "/main",
        "worktree.config.toml",
        Config { symlinks: vec!["data".to_string()], ..Default::default() },
    );
    let ops = disk.plan(&config, "/main", "/target");
    assert!(ops[0].will_skip);
    assert_eq!(ops[0].skip_reason, Some("exists".to_string()));
}

#[test]
fn plan_expands_globs_between_overwrites_and_templates() {
    let mut disk = Disk::new(&["/main", "/target"]);
    disk.write("/main/apps/x/a.env", "A");
    disk.write("/main/apps/x/sub/b.env", "B");
    disk.write("/main/root.env", "R");
    disk.write("/main/apps/x/over.txt", "O");
    disk.write("/main/apps/x/tpl", "T");
    disk.write("/target/apps/x/sub/b.env", "old");

    let config = config_at(
        "/main/apps/x",
        "apps/x/worktree.config.toml",
        Config {
            overwrite: vec!["over.txt".to_string()],
            copy_glob: vec!["**/*.env".to_string(), "/*.env".to_string()],
            templates: vec![TemplateMapping { source: "tpl".to_string(), target: "out".to_string() }],
            ..Default::default()
        },
    );

    let inquiries = plan_inquiries(&config, "/main", "/target");
    assert_eq!(inquiries.len(), 4);
    assert_eq!(inquiries[1].label, "**/*.env");
    assert_eq!(inquiries[1].source, "/main/apps/x/**/*.env");
    assert_eq!(inquiries[1].target, "/main/apps/x");
    assert_eq!(inquiries[2].source, "/main/*.env");
    assert_eq!(inquiries[2].target, "/main");
    assert_eq!((inquiries[3].current, inquiries[3].total), (4, 4));

    let (mut seen, _) = disk.observe(&config, "/main", "/target");
    let found = vec![
        "/main/apps/x/a.env".to_string(),
        "/main/apps/x/sub/b.env".to_string(),
        "/elsewhere/c.env".to_string(),
    ];
    for file in &found {
        if let Some(target) = match_target("/main", "/target", "apps/x", "**/*.env", file) {
            seen.record(target.clone(), disk.status(&target), 0);
        }
    }
    seen.record_matches("/main/apps/x/**/*.env".to_string(), found);
    seen.record_matches("/main/*.env".to_string(), vec!["/main/root.env".to_string()]);

    let ops =
        plan_operations(&config, "/main", "/target", &ApplyConfigOptions::default(), &seen).unwrap();
    let kinds: Vec<OperationType> = ops.iter().map(|op| op.operation_type).collect();
    assert_eq!(
        kinds,
        vec![
            OperationType::Overwrite,
            OperationType::CopyGlob,
            OperationType::CopyGlob,
            OperationType::CopyGlob,
            OperationType::Template,
        ]
    );
    assert_eq!(ops[1].display_path, "apps/x/a.env");
    assert_eq!(ops[1].source, "/main/apps/x/a.env");
    assert_eq!(ops[1].target, "/target/apps/x/a.env");
    assert_eq!(ops[1].file_count, 1);
    assert!(!ops[1].is_directory);
    assert!(!ops[1].will_skip);
    assert_eq!(ops[2].display_path, "apps/x/sub/b.env");
    assert!(ops[2].will_skip);
    assert_eq!(ops[2].skip_reason, Some("exists".to_string()));
    assert_eq!(ops[3].display_path, "root.env");
    assert_eq!(ops[3].target, "/target/root.env");
    assert_eq!(ops[4].display_path, "apps/x/tpl -> apps/x/out");
}

#[test]
fn plan_fails_on_a_malformed_pattern() {
    let config = config_at(
        "/main",
        "worktree.config.toml",
        Config {
            copy: vec!["a".to_string()],
            copy_glob: vec![
                "ok/*".to_string(),
                "bad/***".to_string(),
                "worse/[".to_string(),
                "fine/**/*.env".to_string(),
            ],
            templates: vec![TemplateMapping { source: "t".to_string(), target: "u".to_string() }],
            ..Default::default()
        },
    );
    let mut seen = Snapshot::new();
    seen.record_matches("/main/ok/*".to_string(), vec!["/main/ok/x".to_string()]);
    seen.record_matches("/main/fine/**/*.env".to_string(), vec!["/main/fine/y.env".to_string()]);

    let error = plan_operations(&config, "/main", "/target", &ApplyConfigOptions::default(), &seen)
        .unwrap_err();
    assert_eq!(
        error.message(),
        "Glob pattern error: Pattern syntax error near position 12: \
         wildcards are either regular `*` or recursive `**`"
    );

    // Applied stage by stage, what comes before the pattern stands.
    let stages = apply_config(&config, "/main", "/target");
    assert_eq!(stages.len(), 3);
    assert!(matches!(&stages[0], Stage::Items(items)
        if items.len() == 1 && items[0].source == "/main/a"));
    assert!(matches!(&stages[1], Stage::Expand { pattern, full_pattern }
        if pattern == "ok/*" && full_pattern == "/main/ok/*"));
    assert!(matches!(&stages[2], Stage::Fail(error) if error.message()
        == "Glob pattern error: Pattern syntax error near position 12: \
            wildcards are either regular `*` or recursive `**`"));

    let mut disk = Disk::new(&["/main", "/target"]);
    disk.write("/main/a", "A");
    disk.write("/main/ok/x", "X");
    disk.write("/main/t", "T");
    let failure = disk
        .apply_with(&config, "/main", "/target", &[("/main/ok/*", vec!["/main/ok/x".to_string()])])
        .unwrap_err();
    assert!(failure.starts_with("Glob pattern error: Pattern syntax error near position 12"));
    assert_eq!(disk.read("/target/a").unwrap(), "A");
    assert_eq!(disk.read("/target/ok/x").unwrap(), "X");
    assert!(!disk.status("/target/u").exists);

    let mut config = config;
    config.config.copy_glob.remove(1);
    let error = plan_operations(&config, "/main", "/target", &ApplyConfigOptions::default(), &seen)
        .unwrap_err();
    assert_eq!(
        error.message(),
        "Glob pattern error: Pattern syntax error near position 12: invalid range pattern"
    );

    config.config.copy_glob.remove(1);
    let ops =
        plan_operations(&config, "/main", "/target", &ApplyConfigOptions::default(), &seen).unwrap();
    assert_eq!(ops.len(), 4);
    assert_eq!(ops[1].source, "/main/ok/x");
    assert_eq!(ops[2].source, "/main/fine/y.env");
}

#[test]
fn copy_is_idempotent() {
    let mut disk = Disk::new(&["/tmp/dir"]);
    disk.write("/tmp/dir/source.txt", "one");
    disk.write("/tmp/dir/tree/a.txt", "a");
    disk.write("/tmp/dir/tree/sub/b.txt", "b");

    let (first, _) = disk.copy_file("/tmp/dir/source.txt", "/tmp/dir/copy.txt");
    assert_eq!(first, CopyResult::Created { files_copied: 1 });
    let after_first = disk.clone();
    disk.write("/tmp/dir/source.txt", "two");
    let (second, _) = disk.copy_file("/tmp/dir/source.txt", "/tmp/dir/copy.txt");
    assert_eq!(second, CopyResult::Exists);
    assert_eq!(disk.read("/tmp/dir/copy.txt"), after_first.read("/tmp/dir/copy.txt"));

    let (first, _) = disk.copy_directory("/tmp/dir/tree", "/tmp/dir/tree2");
    assert_eq!(first, CopyResult::Created { files_copied: 2 });
    let after_first = disk.clone();
    let (second, _) = disk.copy_directory("/tmp/dir/tree", "/tmp/dir/tree2");
    assert_eq!(second, CopyResult::Exists);
    assert_eq!(disk.nodes, after_first.nodes);
}

#[test]
fn overwrite_always_wins() {
    for prior in ["", "old", "something much longer than the source"] {
        let mut disk = Disk::new(&["/tmp/dir"]);
        disk.write("/tmp/dir/source.txt", "source bytes");
        disk.write("/tmp/dir/target.txt", prior);
        let result = disk.overwrite_file("/tmp/dir/source.txt", "/tmp/dir/target.txt");
        assert_eq!(result, CopyResult::Created { files_copied: 1 });
        assert_eq!(disk.read("/tmp/dir/target.txt").unwrap(), "source bytes");
    }
}

#[test]
fn enumeration_is_complete() {
    let mut disk = Disk::new(&["/tmp/dir"]);
    disk.write("/tmp/dir/tree/a.txt", "a");
    disk.write("/tmp/dir/tree/sub/b.txt", "b");
    disk.write("/tmp/dir/tree/sub/deep/c.txt", "c");
    disk.create_dir_all("/tmp/dir/tree/empty");
    disk.link("/tmp/dir/tree/rel", "a.txt");
    disk.link("/tmp/dir/tree/sub/abs", "/tmp/dir/tree/a.txt");

    let count = count_files(
        "/tmp/dir/tree",
        disk.status("/tmp/dir/tree"),
        &disk.walk("/tmp/dir/tree"),
    );
    assert_eq!(count, 5);

    let (result, _) = disk.copy_directory("/tmp/dir/tree", "/tmp/dir/copy");
    assert_eq!(result, CopyResult::Created { files_copied: 5 });

    let copied: Vec<String> = disk
        .walk("/tmp/dir/copy")
        .iter()
        .filter_map(|item| match item {
            Walked::Entry { path, kind } if *kind != EntryKind::Directory => Some(path.clone()),
            _ => None,
        })
        .collect();
    assert_eq!(
        copied,
        vec![
            "/tmp/dir/copy/a.txt",
            "/tmp/dir/copy/rel",
            "/tmp/dir/copy/sub/abs",
            "/tmp/dir/copy/sub/b.txt",
            "/tmp/dir/copy/sub/deep/c.txt",
        ]
    );
    assert_eq!(disk.read("/tmp/dir/copy/a.txt").unwrap(), "a");
    assert_eq!(disk.read("/tmp/dir/copy/sub/b.txt").unwrap(), "b");
    assert_eq!(disk.read("/tmp/dir/copy/sub/deep/c.txt").unwrap(), "c");
    assert_eq!(disk.read_link("/tmp/dir/copy/rel").unwrap(), "a.txt");
    assert_eq!(disk.read_link("/tmp/dir/copy/sub/abs").unwrap(), "/tmp/dir/tree/a.txt");
}

#[test]
fn empty_directory_is_copied_as_an_empty_directory() {
    let mut disk = Disk::new(&["/tmp/dir"]);
    disk.create_dir_all("/tmp/dir/tree");

    let (result, reports) = disk.copy_directory("/tmp/dir/tree", "/tmp/dir/copy");
    assert_eq!(result, CopyResult::Created { files_copied: 0 });
    assert!(disk.status("/tmp/dir/copy").is_dir);
    assert!(reports.is_empty());
}

#[test]
fn directory_copy_reports_at_every_hundred() {
    let mut disk = Disk::new(&["/tmp/dir"]);
    for i in 0..250 {
        disk.write(&format!("/tmp/dir/tree/f{i:03}"), "x");
    }
    let (result, reports) = disk.copy_directory("/tmp/dir/tree", "/tmp/dir/copy");
    assert_eq!(result, CopyResult::Created { files_copied: 250 });
    assert_eq!(reports, vec![(0, 250), (100, 250), (200, 250), (250, 250), (250, 250)]);

    let count =
        count_files_with_progress("/tmp/dir/tree", disk.status("/tmp/dir/tree"), &disk.walk("/tmp/dir/tree"));
    assert_eq!(count.reports, vec![100, 200, 250]);
}

#[test]
fn end_to_end() {
    let mut disk = Disk::new(&["/source", "/target"]);
    disk.write("/source/data/one.bin", "1");
    disk.write("/source/data/two.bin", "2");
    disk.write("/source/config.json", "{\"a\":1}");
    disk.write("/source/settings.json", "{\"new\":true}");
    disk.write("/target/settings.json", "{\"old\":true}");

    let config = create_test_config("/source");
    let ops = disk.plan(&config, "/source", "/target");
    assert_eq!(ops.len(), 3);
    assert!(ops.iter().all(|op| !op.will_skip));

    let results: Vec<OperationResult> = ops.iter().map(|op| disk.execute(op).0).collect();
    assert_eq!(
        results,
        vec![OperationResult::Created, OperationResult::Created, OperationResult::Overwritten]
    );

    assert!(disk.status("/target/data").is_symlink);
    assert_eq!(disk.read_link("/target/data").unwrap(), "/source/data");
    assert_eq!(disk.read("/target/data/one.bin").unwrap(), "1");
    assert_eq!(disk.read("/target/config.json").unwrap(), "{\"a\":1}");
    assert_eq!(disk.read("/target/settings.json").unwrap(), "{\"new\":true}");
}

#[test]
fn executing_a_skipped_operation_changes_nothing() {
    let mut disk = Disk::new(&["/main", "/target"]);
    disk.write("/main/present.txt", "new");
    disk.write("/target/present.txt", "old");
    let config = config_at(
        "/main",
        "worktree.config.toml",
        Config {
            copy: vec!["present.txt".to_string(), "absent.txt".to_string()],
            ..Default::default()
        },
    );
    let ops = disk.plan(&config, "/main", "/target");
    let before = disk.clone();

    let (first, reports) = disk.execute(&ops[0]);
    assert_eq!(first, OperationResult::Exists);
    assert!(reports.is_empty());
    let (second, _) = disk.execute(&ops[1]);
    assert_eq!(second, OperationResult::Skipped);
    assert_eq!(disk.nodes, before.nodes);
}

#[test]
fn executing_a_directory_reports_completion_at_the_end() {
    let mut disk = Disk::new(&["/main", "/target"]);
    disk.write("/main/data/a", "a");
    disk.write("/main/data/b", "b");
    disk.write("/main/data/c", "c");
    let config = config_at(
        "/main",
        "worktree.config.toml",
        Config {
            copy: vec!["data".to_string()],
            overwrite: vec!["data".to_string()],
            ..Default::default()
        },
    );
    let ops = disk.plan(&config, "/main", "/target");
    assert_eq!(ops[1].file_count, 3);

    let (first, reports) = disk.execute(&ops[0]);
    assert_eq!(first, OperationResult::Created);
    assert_eq!(reports, vec![(0, 3), (3, 3), (3, 3), (3, 3)]);
    assert_eq!(disk.read("/target/data/b").unwrap(), "b");

    // An overwrite of a directory that is already there leaves it alone.
    disk.write("/main/data/d", "d");
    let (second, reports) = disk.execute(&ops[1]);
    assert_eq!(second, OperationResult::Exists);
    assert_eq!(reports, vec![(3, 3)]);
    assert!(!disk.status("/target/data/d").exists);
}

#[test]
fn apply_records_each_kind_in_its_list() {
    let mut disk = Disk::new(&["/main", "/target"]);
    disk.write("/main/data/file.txt", "content");
    disk.write("/main/config.json", "{}");
    disk.write("/main/settings.json", "new");
    disk.write("/target/settings.json", "old");
    disk.write("/main/tpl", "T");

    let mut config = create_test_config("/main");
    config.config.templates =
        vec![TemplateMapping { source: "tpl".to_string(), target: "out".to_string() }];
    let result = disk.apply(&config, "/main", "/target");

    assert_eq!(result.symlinks.len(), 1);
    assert_eq!(result.symlinks[0].path, "data");
    assert_eq!(result.copies.len(), 1);
    assert_eq!(result.copies[0].result, OperationResult::Created);
    assert_eq!(result.overwrites.len(), 1);
    assert_eq!(result.overwrites[0].result, OperationResult::Overwritten);
    assert_eq!(result.templates.len(), 1);
    assert_eq!(result.templates[0].path, "tpl -> out");
    assert!(result.unstaged.is_empty());
    assert_eq!(disk.read("/target/settings.json").unwrap(), "new");
    assert_eq!(disk.read("/target/out").unwrap(), "T");
}

#[test]
fn apply_resolves_root_relative_paths_as_the_plan_does() {
    let mut disk = Disk::new(&["/main/apps/x", "/tgt"]);
    disk.write("/main/.env", "B");
    disk.write("/main/apps/x/local.txt", "L");
    disk.write("/main/shared.tpl", "S");

    let config = config_at(
        "/main/apps/x",
        "apps/x/worktree.config.toml",
        Config {
            copy: vec!["/.env".to_string(), "local.txt".to_string()],
            templates: vec![TemplateMapping {
                source: "/shared.tpl".to_string(),
                target: "own.txt".to_string(),
            }],
            ..Default::default()
        },
    );
    let result = disk.apply(&config, "/main", "/tgt");

    let copies: Vec<(&str, OperationResult)> =
        result.copies.iter().map(|record| (record.path.as_str(), record.result)).collect();
    assert_eq!(
        copies,
        vec![(".env", OperationResult::Created), ("apps/x/local.txt", OperationResult::Created)]
    );
    assert_eq!(disk.read("/tgt/.env").unwrap(), "B");
    assert_eq!(disk.read("/tgt/apps/x/local.txt").unwrap(), "L");
    assert!(!disk.status("/.env").exists);
    assert_eq!(result.templates[0].path, "shared.tpl -> apps/x/own.txt");
    assert_eq!(disk.read("/tgt/apps/x/own.txt").unwrap(), "S");

    // Planning the same configuration gives the same places.
    let mut fresh = Disk::new(&["/main/apps/x", "/tgt"]);
    fresh.write("/main/.env", "B");
    fresh.write("/main/apps/x/local.txt", "L");
    fresh.write("/main/shared.tpl", "S");
    let ops = fresh.plan(&config, "/main", "/tgt");
    let stages = apply_config(&config, "/main", "/tgt");
    let items: Vec<(&str, &str, &str)> = stages
        .iter()
        .flat_map(|stage| match stage {
            Stage::Items(items) => items.iter().collect::<Vec<_>>(),
            _ => Vec::new(),
        })
        .map(|item| (item.path.as_str(), item.source.as_str(), item.target.as_str()))
        .collect();
    let planned: Vec<(&str, &str, &str)> = ops
        .iter()
        .map(|op| (op.display_path.as_str(), op.source.as_str(), op.target.as_str()))
        .collect();
    assert_eq!(items, planned);
}

#[test]
fn apply_expands_each_pattern_in_its_turn() {
    let mut disk = Disk::new(&["/main/apps/x", "/tgt"]);
    disk.write("/main/apps/x/a.env", "A");
    disk.write("/main/root.env", "R");
    let config = config_at(
        "/main/apps/x",
        "apps/x/worktree.config.toml",
        Config { copy_glob: vec!["*.env".to_string(), "/*.env".to_string()], ..Default::default() },
    );
    let stages = apply_config(&config, "/main", "/tgt");
    assert_eq!(stages.len(), 4);
    assert!(matches!(&stages[0], Stage::Items(items) if items.is_empty()));
    assert!(matches!(&stages[1], Stage::Expand { full_pattern, .. }
        if full_pattern == "/main/apps/x/*.env"));
    assert!(matches!(&stages[2], Stage::Expand { full_pattern, .. } if full_pattern == "/main/*.env"));
    assert!(matches!(&stages[3], Stage::Items(items) if items.is_empty()));

    let result = disk
        .apply_with(
            &config,
            "/main",
            "/tgt",
            &[
                ("/main/apps/x/*.env", vec!["/main/apps/x/a.env".to_string(), "/other/b.env".to_string()]),
                ("/main/*.env", vec!["/main/root.env".to_string()]),
            ],
        )
        .unwrap();
    let copies: Vec<&str> = result.copies.iter().map(|record| record.path.as_str()).collect();
    assert_eq!(copies, vec!["apps/x/a.env", "root.env"]);
    assert_eq!(disk.read("/tgt/apps/x/a.env").unwrap(), "A");
    assert_eq!(disk.read("/tgt/root.env").unwrap(), "R");
}

#[test]
fn a_directory_copy_without_source_changes_nothing() {
    let mut disk = Disk::new(&["/main"]);
    let before = disk.clone();

    let walked = Vec::new();
    let execution = copy_directory("/main/gone", "/new/parent/dir", false, false, &walked).unwrap();
    assert_eq!(execution.result, OperationResult::Skipped);
    assert!(execution.steps.is_empty());
    assert!(execution.prepare.is_empty());
    assert!(execution.entries.is_empty());
    assert!(execution.announce.is_empty() && execution.conclude.is_empty());
    let (result, reports) = disk.run(&execution);
    assert_eq!(result, OperationResult::Skipped);
    assert!(reports.is_empty());
    assert_eq!(disk.nodes, before.nodes);
    assert!(!disk.status("/new/parent").exists);

    disk.create_dir_all("/there");
    let execution = copy_directory("/main", "/there", true, true, &walked).unwrap();
    assert_eq!(execution.result, OperationResult::Exists);
    assert!(execution.steps.is_empty());

    let (result, _) = disk.copy_directory("/main/gone", "/new/parent/dir");
    assert_eq!(result, CopyResult::SourceNotFound);
    assert!(!disk.status("/new/parent").exists);

    disk.write("/main/tree/a", "a");
    let walked = disk.walk("/main/tree");
    let execution = copy_directory("/main/tree", "/new/parent/dir", true, false, &walked).unwrap();
    assert_eq!(execution.steps.len(), 1);
    assert!(matches!(&execution.steps[0], Step::CreateDirAll { path } if path == "/new/parent"));
}

#[test]
fn a_later_look_at_a_path_keeps_its_count() {
    let mut disk = Disk::new(&["/main", "/target"]);
    disk.write("/main/data/a", "a");
    disk.write("/main/data/b", "b");
    let config = config_at(
        "/main",
        "worktree.config.toml",
        Config {
            copy: vec!["data".to_string()],
            templates: vec![TemplateMapping { source: "data".to_string(), target: "t".to_string() }],
            ..Default::default()
        },
    );
    let ops = disk.plan(&config, "/main", "/target");
    assert!(ops[0].is_directory);
    assert_eq!(ops[0].file_count, 2);

    let mut seen = Snapshot::new();
    seen.record("/p".to_string(), PathStatus::directory(), 9);
    seen.record_status("/p".to_string(), PathStatus::file());
    assert_eq!(seen.facts("/p").file_count, 9);
    assert!(seen.status("/p").is_file);
    seen.record_status("/q".to_string(), PathStatus::file());
    assert_eq!(seen.facts("/q").file_count, 0);
}
