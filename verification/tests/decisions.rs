use worktree_setup::cli::absolute_target;
use worktree_setup::cli::all_selected;
use worktree_setup::cli::format_result_string;
use worktree_setup::cli::is_main_worktree;
use worktree_setup::cli::needs_progress_bar;
use worktree_setup::cli::post_setup_commands;
use worktree_setup::cli::selected_by_patterns;
use worktree_setup::cli::skip_label;
use worktree_setup::cli::unique_commands;
use worktree_setup::cli::Args;
use worktree_setup::config::config_format;
use worktree_setup::config::discover_configs;
use worktree_setup::config::discovery_arguments;
use worktree_setup::config::discovery_patterns;
use worktree_setup::config::evaluated;
use worktree_setup::config::format_for;
use worktree_setup::config::import_script;
use worktree_setup::config::is_config_file;
use worktree_setup::config::is_config_name;
use worktree_setup::config::name_to_show;
use worktree_setup::config::is_vendored;
use worktree_setup::config::load_config;
use worktree_setup::config::load_ts_config;
use worktree_setup::config::runtime_arguments;
use worktree_setup::config::runtimes;
use worktree_setup::config::Config;
use worktree_setup::config::ConfigError;
use worktree_setup::config::ConfigFormat;
use worktree_setup::config::JsRuntime;
use worktree_setup::config::LoadedConfig;
use worktree_setup::config::ProcessOutput;
use worktree_setup::execute::link;
use worktree_setup::execute::step_failure;
use worktree_setup::execute::Step;
use worktree_setup::git::abbreviate;
use worktree_setup::git::create_worktree;
use worktree_setup::git::get_default_branch;
use worktree_setup::git::get_main_worktree;
use worktree_setup::git::get_recent_branches;
use worktree_setup::git::get_unstaged_and_untracked_files;
use worktree_setup::git::GitError;
use worktree_setup::git::StatusEntry;
use worktree_setup::git::WorktreeCreateOptions;
use worktree_setup::git::WorktreeInfo;
use worktree_setup::outcome::OperationError;
use worktree_setup::outcome::OperationResult;
use worktree_setup::observe::PathStatus;
use worktree_setup::observe::Snapshot;
use worktree_setup::plan::plan_operation;
use worktree_setup::plan::OperationType;
use worktree_setup::plan::PlannedOperation;
use worktree_setup::progress::CopyProgress;
use worktree_setup::progress::ProgressTracker;
use worktree_setup::prompts::base_branch_choice;
use worktree_setup::prompts::base_branch_options;
use worktree_setup::prompts::config_choices;
use worktree_setup::prompts::creation_menu;
use worktree_setup::prompts::detached_options;
use worktree_setup::prompts::existing_branch_options;
use worktree_setup::prompts::new_branch_options;
use worktree_setup::prompts::obvious_selection;
use worktree_setup::prompts::worktree_name;
use worktree_setup::prompts::BaseChoice;
use worktree_setup::prompts::CreationChoice;
use worktree_setup::text::characters;
use worktree_setup::text::contains;
use worktree_setup::text::find;
use worktree_setup::text::squeeze;
use worktree_setup::text::starts_with;
use worktree_setup::transfer::failure;
use worktree_setup::transfer::Action;
use worktree_setup::transfer::CopyError;

fn args() -> Args {
    Args {
        target_path: None,
        branch: None,
        new_branch: None,
        configs: Vec::new(),
        no_install: false,
        unstaged: false,
        no_unstaged: false,
        list: false,
        non_interactive: false,
        no_progress: false,
        verbose: false,
    }
}

fn loaded(relative_path: &str, description: &str, post_setup: &[&str]) -> LoadedConfig {
    LoadedConfig {
        config: Config {
            description: description.to_string(),
            post_setup: post_setup.iter().map(|c| c.to_string()).collect(),
            ..Default::default()
        },
        config_path: format!("/repo/{relative_path}"),
        config_dir: "/repo".to_string(),
        relative_path: relative_path.to_string(),
    }
}

fn entry(path: &str, modified: bool, new: bool) -> StatusEntry {
    StatusEntry {
        path: Some(path.to_string()),
        worktree_new: new,
        worktree_modified: modified,
        worktree_deleted: false,
        worktree_typechange: false,
        worktree_renamed: false,
    }
}

fn strings(items: &[&str]) -> Vec<String> {
    items.iter().map(|item| item.to_string()).collect()
}

#[test]
fn flags_override_the_configuration() {
    assert_eq!(args().copy_unstaged_override(), None);
    assert_eq!(Args { unstaged: true, ..args() }.copy_unstaged_override(), Some(true));
    assert_eq!(Args { no_unstaged: true, ..args() }.copy_unstaged_override(), Some(false));
    assert_eq!(
        Args { unstaged: true, no_unstaged: true, ..args() }.copy_unstaged_override(),
        Some(false)
    );
    assert!(args().should_run_install());
    assert!(!Args { no_install: true, ..args() }.should_run_install());
    assert!(args().should_show_progress());
    assert!(!Args { no_progress: true, ..args() }.should_show_progress());
}

#[test]
fn outcomes_are_worded_by_kind() {
    let created = OperationResult::Created;
    assert_eq!(format_result_string(created, OperationType::Symlink), "symlink");
    assert_eq!(format_result_string(created, OperationType::Copy), "copied");
    assert_eq!(format_result_string(created, OperationType::CopyGlob), "copied");
    assert_eq!(format_result_string(created, OperationType::Template), "created");
    assert_eq!(format_result_string(created, OperationType::Unstaged), "copied");
    assert_eq!(format_result_string(created, OperationType::Overwrite), "copied");
    assert_eq!(
        format_result_string(OperationResult::Overwritten, OperationType::Overwrite),
        "overwritten"
    );
    assert_eq!(format_result_string(OperationResult::Exists, OperationType::Copy), "exists");
    assert_eq!(format_result_string(OperationResult::Skipped, OperationType::Symlink), "skipped");
    assert_eq!(OperationResult::Created.name(), "created");
    assert_eq!(OperationResult::Overwritten.name(), "overwritten");
    assert_eq!(OperationResult::Exists.name(), "exists");
    assert_eq!(OperationResult::Skipped.name(), "skipped");
    assert_eq!(OperationType::Symlink.name(), "symlink");
    assert_eq!(OperationType::Copy.name(), "copy");
    assert_eq!(OperationType::CopyGlob.name(), "copy");
    assert_eq!(OperationType::Template.name(), "template");
    assert_eq!(OperationType::Unstaged.name(), "unstaged");
    assert_eq!(OperationType::Overwrite.name(), "overwrite");
}

#[test]
fn commands_run_once_in_order_of_first_occurrence() {
    let configs = vec![
        loaded("a/worktree.config.toml", "A", &["npm install", "make"]),
        loaded("b/worktree.config.toml", "B", &["make", "npm install", "bun install"]),
        loaded("c/worktree.config.toml", "C", &["never"]),
    ];
    let commands = post_setup_commands(&configs, &vec![1, 0]);
    assert_eq!(commands, strings(&["make", "npm install", "bun install", "npm install", "make"]));
    assert_eq!(unique_commands(&commands), strings(&["make", "npm install", "bun install"]));
    assert!(unique_commands(&Vec::new()).is_empty());
}

#[test]
fn configurations_are_selected_by_part_of_their_path() {
    let configs = vec![
        loaded("apps/web/worktree.config.toml", "Web", &[]),
        loaded("apps/api/worktree.config.ts", "Api", &[]),
        loaded("worktree.config.toml", "Root", &[]),
    ];
    assert_eq!(selected_by_patterns(&configs, &strings(&["api"])), vec![1]);
    assert_eq!(selected_by_patterns(&configs, &strings(&["apps/"])), vec![0, 1]);
    assert_eq!(selected_by_patterns(&configs, &strings(&[".toml", "api"])), vec![0, 1, 2]);
    assert_eq!(selected_by_patterns(&configs, &strings(&["/repo/worktree"])), vec![2]);
    assert_eq!(selected_by_patterns(&configs, &strings(&["nothing"])), Vec::<usize>::new());
    assert_eq!(selected_by_patterns(&configs, &Vec::new()), Vec::<usize>::new());
    assert_eq!(all_selected(3), vec![0, 1, 2]);
    assert_eq!(all_selected(0), Vec::<usize>::new());
}

#[test]
fn target_is_made_absolute() {
    assert_eq!(absolute_target("/abs/wt", "/home/me"), "/abs/wt");
    assert_eq!(absolute_target("../wt", "/home/me"), "/home/me/../wt");
    assert!(is_main_worktree("/repo/", "/repo"));
    assert!(!is_main_worktree("/repo2", "/repo"));
}

#[test]
fn progress_bars_are_for_directories_of_several_files() {
    let mut op = PlannedOperation {
        display_path: "data".to_string(),
        operation_type: OperationType::Copy,
        source: "/main/data".to_string(),
        target: "/target/data".to_string(),
        file_count: 2,
        is_directory: true,
        will_skip: false,
        skip_reason: None,
    };
    assert!(needs_progress_bar(&op));
    op.file_count = 1;
    assert!(!needs_progress_bar(&op));
    op.file_count = 5;
    op.is_directory = false;
    assert!(!needs_progress_bar(&op));
    assert_eq!(skip_label(&op), "skipped");
    op.skip_reason = Some("exists".to_string());
    assert_eq!(skip_label(&op), "exists");
    let copy = op.clone();
    assert_eq!(copy.display_path, "data");
    assert_eq!(copy.skip_reason, Some("exists".to_string()));
}

#[test]
fn test_load_ts_config_with_bun() {
    let config = Config {
        description: "Test TS config".to_string(),
        symlinks: vec!["data/cache".to_string()],
        copy_unstaged: true,
        ..Default::default()
    };

    let config = load_ts_config(vec![Ok(config)]).unwrap();

    assert_eq!(config.description, "Test TS config");
    assert_eq!(config.symlinks, vec!["data/cache"]);
    assert!(config.copy_unstaged);
}

#[test]
fn script_configuration_takes_the_first_runtime_that_succeeds() {
    let failed = |message: &str| {
        Err(ConfigError::TypeScriptEvalError { path: "c.ts".to_string(), message: message.to_string() })
    };
    let named = |description: &str| {
        Ok(Config { description: description.to_string(), ..Default::default() })
    };

    assert_eq!(runtimes(), vec![JsRuntime::Bun, JsRuntime::Deno]);
    let config = load_ts_config(vec![failed("no bun"), named("from deno")]).unwrap();
    assert_eq!(config.description, "from deno");
    let config = load_ts_config(vec![named("from bun"), named("from deno")]).unwrap();
    assert_eq!(config.description, "from bun");
    let error = load_ts_config(vec![failed("no bun"), failed("no deno")]).unwrap_err();
    assert!(matches!(error, ConfigError::NoJsRuntime));
    assert_eq!(error.message(), "No JavaScript runtime found. Please install bun or deno.");
    assert!(matches!(load_ts_config(Vec::new()), Err(ConfigError::NoJsRuntime)));
}

#[test]
fn runtimes_are_called_with_the_import_script() {
    let script = "const m = await import(\"file:///r/c.ts\"); console.log(JSON.stringify(m.default ?? m));";
    assert_eq!(import_script("/r/c.ts"), script);
    assert_eq!(runtime_arguments(JsRuntime::Bun, "/r/c.ts"), strings(&["-e", script]));
    assert_eq!(
        runtime_arguments(JsRuntime::Deno, "/r/c.ts"),
        strings(&["eval", "--allow-read", script])
    );
    assert_eq!(JsRuntime::Bun.name(), "bun");
    assert_eq!(JsRuntime::Deno.name(), "deno");
}

#[test]
fn evaluation_is_read_from_what_the_runtime_left() {
    let printed = Ok(ProcessOutput {
        success: true,
        stdout: "  {\"description\":\"x\"}\n".to_string(),
        stderr: "warning".to_string(),
    });
    assert_eq!(evaluated(JsRuntime::Bun, "c.ts", &printed).unwrap(), "{\"description\":\"x\"}");

    let ended_badly = Ok(ProcessOutput {
        success: false,
        stdout: "{}".to_string(),
        stderr: "SyntaxError".to_string(),
    });
    let error = evaluated(JsRuntime::Deno, "c.ts", &ended_badly).unwrap_err();
    assert_eq!(error.message(), "TypeScript evaluation failed for c.ts: SyntaxError");

    let not_started = Err("No such file or directory".to_string());
    let error = evaluated(JsRuntime::Bun, "c.ts", &not_started).unwrap_err();
    assert_eq!(
        error.message(),
        "TypeScript evaluation failed for c.ts: Failed to run bun: No such file or directory"
    );
}

#[test]
fn configurations_are_loaded_by_extension() {
    assert_eq!(config_format("/r/worktree.config.toml").unwrap(), ConfigFormat::Toml);
    assert_eq!(config_format("/r/worktree.config.ts").unwrap(), ConfigFormat::TypeScript);
    let error = config_format("/r/worktree.config.json").unwrap_err();
    assert_eq!(error.message(), "Unsupported config format: json");
    let error = config_format("/r/Makefile").unwrap_err();
    assert_eq!(error.message(), "Unsupported config format: ");

    let config = Config { description: "D".to_string(), ..Default::default() };
    let found = load_config("/repo/apps/x/worktree.config.toml", "/repo", config.clone()).unwrap();
    assert_eq!(found.config.description, "D");
    assert_eq!(found.config_path, "/repo/apps/x/worktree.config.toml");
    assert_eq!(found.config_dir, "/repo/apps/x");
    assert_eq!(found.relative_path, "apps/x/worktree.config.toml");

    let outside = load_config("/else/worktree.config.ts", "/repo", config.clone()).unwrap();
    assert_eq!(outside.relative_path, "/else/worktree.config.ts");
    assert_eq!(outside.config_dir, "/else");

    let error = load_config("/repo/worktree.config.yaml", "/repo", config).unwrap_err();
    assert!(matches!(error, ConfigError::UnsupportedFormat(ref extension) if extension == "yaml"));
}

#[test]
fn configuration_errors_are_described() {
    let path = "/r/c.toml".to_string();
    let cause = "boom".to_string();
    let cases = vec![
        (
            ConfigError::ReadError { path: path.clone(), source: cause.clone() },
            "Failed to read config file /r/c.toml: boom",
        ),
        (
            ConfigError::TomlParseError { path: path.clone(), source: cause.clone() },
            "Failed to parse TOML config /r/c.toml: boom",
        ),
        (
            ConfigError::JsonParseError { path: path.clone(), source: cause.clone() },
            "Failed to parse JSON from TypeScript config /r/c.toml: boom",
        ),
        (ConfigError::InvalidPath(path.clone()), "Invalid config path: /r/c.toml"),
        (ConfigError::IoError(cause.clone()), "IO error during config discovery: boom"),
    ];
    for (error, text) in cases {
        assert_eq!(error.message(), text);
    }
}

#[test]
fn configurations_are_discovered_by_name() {
    assert!(is_config_file("worktree.config.toml"));
    assert!(is_config_file("apps/x/worktree.local.config.ts"));
    assert!(!is_config_file("apps/worktree/other.config.toml"));
    assert!(!is_config_file("worktree.toml"));
    assert!(!is_config_file("my-worktree.config.toml"));
    assert!(!is_config_file(""));

    let lines = strings(&[
        "z/worktree.config.toml",
        "jest.config.ts",
        "apps/x/worktree.dev.config.ts",
        "worktree.config.toml",
        "a-b/worktree.config.toml",
        "a/b/worktree.config.toml",
    ]);
    // Paths are ordered component by component: `a` comes before `a-b`.
    assert_eq!(
        discover_configs(&lines, "/repo"),
        strings(&[
            "/repo/a/b/worktree.config.toml",
            "/repo/a-b/worktree.config.toml",
            "/repo/apps/x/worktree.dev.config.ts",
            "/repo/worktree.config.toml",
            "/repo/z/worktree.config.toml",
        ])
    );
    assert_eq!(
        discovery_arguments(),
        strings(&[
            "ls-files",
            "--cached",
            "--others",
            "--exclude-standard",
            "*.config.toml",
            "*.config.ts",
        ])
    );
    assert_eq!(
        discovery_patterns(),
        strings(&[
            "**/worktree.config.toml",
            "**/worktree.config.ts",
            "**/worktree.*.config.toml",
            "**/worktree.*.config.ts",
        ])
    );
    assert!(is_vendored("/repo/node_modules/x/worktree.config.toml"));
    assert!(!is_vendored("/repo/apps/x/worktree.config.toml"));
}

#[test]
fn test_get_main_worktree() {
    let worktrees = vec![WorktreeInfo {
        path: "/tmp/repo".to_string(),
        is_main: true,
        branch: Some("main".to_string()),
        commit: Some("0123abcd".to_string()),
    }];
    let main = get_main_worktree(&worktrees).unwrap();
    assert!(main.is_main);
    assert_eq!(main.path, "/tmp/repo");
}

#[test]
fn main_worktree_is_the_first_that_is_marked() {
    let info = |path: &str, is_main: bool| WorktreeInfo {
        path: path.to_string(),
        is_main,
        branch: None,
        commit: None,
    };
    let worktrees = vec![info("/a", false), info("/b", true), info("/c", true)];
    assert_eq!(get_main_worktree(&worktrees).unwrap().path, "/b");

    let error = get_main_worktree(&vec![info("/a", false)]).unwrap_err();
    assert!(matches!(error, GitError::NoMainWorktree));
    assert_eq!(error.message(), "No main worktree found");
    assert!(matches!(get_main_worktree(&Vec::new()), Err(GitError::NoMainWorktree)));
}

#[test]
fn test_get_unstaged_files_empty() {
    let files = get_unstaged_and_untracked_files(&Vec::new());
    assert!(files.is_empty());
}

#[test]
fn test_get_unstaged_files_with_changes() {
    let entries = vec![entry("untracked.txt", false, true), entry("README.md", true, false)];

    let files = get_unstaged_and_untracked_files(&entries);
    assert_eq!(files.len(), 2);
    assert!(files.contains(&"README.md".to_string()));
    assert!(files.contains(&"untracked.txt".to_string()));
}

#[test]
fn uncommitted_files_are_listed_once_and_in_order() {
    let staged_only = entry("staged.txt", false, false);
    let unnamed = StatusEntry { path: None, ..entry("x", true, false) };
    let deleted = StatusEntry { worktree_deleted: true, ..entry("gone.txt", false, false) };
    let entries = vec![
        entry("b.txt", true, false),
        staged_only,
        entry("a/z.txt", false, true),
        unnamed,
        entry("b.txt", false, true),
        deleted,
        entry("Z.txt", true, false),
    ];
    assert_eq!(
        get_unstaged_and_untracked_files(&entries),
        strings(&["Z.txt", "a/z.txt", "b.txt", "gone.txt"])
    );
    assert_eq!(squeeze(&strings(&["a", "a", "b", "a", "a"])), strings(&["a", "b", "a"]));
}

#[test]
fn worktree_is_added_with_the_right_arguments() {
    let plain = WorktreeCreateOptions::default();
    assert_eq!(create_worktree("/wt", &plain), strings(&["worktree", "add", "/wt"]));

    let all = WorktreeCreateOptions {
        branch: Some("main".to_string()),
        new_branch: Some("feature".to_string()),
        detach: true,
    };
    assert_eq!(
        create_worktree("/wt", &all),
        strings(&["worktree", "add", "--detach", "-b", "feature", "/wt", "main"])
    );

    let existing = WorktreeCreateOptions { branch: Some("dev".to_string()), ..Default::default() };
    assert_eq!(create_worktree("/wt", &existing), strings(&["worktree", "add", "/wt", "dev"]));
    let copy = all.clone();
    assert_eq!(copy.new_branch, Some("feature".to_string()));
}

#[test]
fn default_branch_is_told_from_remote_then_configuration_then_names() {
    let some = |text: &str| Some(text.to_string());
    assert_eq!(
        get_default_branch(some("refs/remotes/origin/trunk"), some("dev"), Some(strings(&["main"]))),
        some("trunk")
    );
    assert_eq!(
        get_default_branch(some("refs/heads/trunk"), some("dev"), Some(strings(&["main"]))),
        some("dev")
    );
    assert_eq!(get_default_branch(None, None, Some(strings(&["master", "main"]))), some("main"));
    assert_eq!(get_default_branch(None, None, Some(strings(&["x", "master"]))), some("master"));
    assert_eq!(get_default_branch(None, None, Some(strings(&["x"]))), None);
    assert_eq!(get_default_branch(None, None, None), None);
    assert_eq!(get_default_branch(some("refs/remotes/origin/"), None, None), some(""));
}

#[test]
fn recent_branches_are_read_from_the_log() {
    let messages: Vec<Option<String>> = vec![
        Some("checkout: moving from main to feature/a".to_string()),
        Some("commit: something".to_string()),
        None,
        Some("checkout: moving from feature/a to main".to_string()),
        Some("checkout: moving from x to feature/a".to_string()),
        Some("checkout: moving from main to 1a2b3c4 (detached)".to_string()),
        Some("checkout: moving from a to b to c".to_string()),
        Some("checkout: moving from nowhere".to_string()),
        Some("checkout: moving from p to old".to_string()),
    ];
    assert_eq!(get_recent_branches(&messages, 10), strings(&["feature/a", "main", "b", "old"]));
    assert_eq!(get_recent_branches(&messages, 2), strings(&["feature/a", "main"]));
    assert_eq!(get_recent_branches(&messages, 1), strings(&["feature/a"]));
    assert!(get_recent_branches(&messages, 0).is_empty());
    assert!(get_recent_branches(&Vec::new(), 3).is_empty());
    assert_eq!(abbreviate("0123456789abcdef"), "01234567");
}

#[test]
fn failed_changes_are_reported_by_kind() {
    let mkdir = Action::CreateDirAll { path: "/t/d".to_string() };
    let copy = Action::CopyFile { source: "/s/a".to_string(), target: "/t/a".to_string() };
    let link = Action::CopySymlink { source: "/s/l".to_string(), target: "/t/l".to_string() };
    assert_eq!(
        failure(&mkdir, "denied".to_string()).message(),
        "Failed to create directory /t/d: denied"
    );
    assert_eq!(
        failure(&copy, "disk full".to_string()).message(),
        "Failed to copy /s/a to /t/a: disk full"
    );
    assert_eq!(
        failure(&link, "exists".to_string()).message(),
        "Failed to create symlink /t/l: exists"
    );
    let read = CopyError::ReadLinkError { path: "/s/l".to_string(), io_error: "gone".to_string() };
    assert_eq!(read.message(), "Failed to read symlink /s/l: gone");
    let walk = CopyError::EnumerationError { path: "/s".to_string(), message: "denied".to_string() };
    assert_eq!(walk.message(), "Failed to enumerate directory /s: denied");
    assert_eq!(
        OperationError::from_copy_error(&walk).message(),
        "Copy error: Failed to enumerate directory /s: denied"
    );
    let meta = CopyError::MetadataError { path: "/s".to_string(), io_error: "x".to_string() };
    assert_eq!(meta.message(), "Failed to get metadata for /s: x");
    let dir = CopyError::ReadDirError { path: "/s".to_string(), io_error: "x".to_string() };
    assert_eq!(dir.message(), "Failed to read directory /s: x");

    let step = Step::Symlink { source: "/s/d".to_string(), target: "/t/d".to_string() };
    assert_eq!(
        step_failure(&step, "denied".to_string()).message(),
        "Failed to create symlink from /s/d to /t/d: denied"
    );
    for step in [
        Step::CreateDirAll { path: "/t".to_string() },
        Step::RemoveFile { path: "/t".to_string() },
        Step::RemoveDirAll { path: "/t".to_string() },
    ] {
        assert_eq!(step_failure(&step, "denied".to_string()).message(), "IO error at /t: denied");
    }
    assert_eq!(OperationError::GlobError("bad".to_string()).message(), "Glob pattern error: bad");
    assert_eq!(
        OperationError::GitError(GitError::BareRepository).message(),
        "Git error: Repository has no working directory (bare repository)"
    );
    assert_eq!(
        OperationError::CopyError {
            source: "/s".to_string(),
            target: "/t".to_string(),
            error: "x".to_string()
        }
        .message(),
        "Failed to copy from /s to /t: x"
    );
}

#[test]
fn version_control_errors_are_described() {
    let path = "/r".to_string();
    let cause = "boom".to_string();
    let cases = vec![
        (
            GitError::OpenError { path: path.clone(), source: cause.clone() },
            "Failed to open repository at /r: boom",
        ),
        (
            GitError::DiscoverError { path: path.clone(), source: cause.clone() },
            "Failed to discover repository from /r: boom",
        ),
        (GitError::WorktreeListError(cause.clone()), "Failed to list worktrees: boom"),
        (
            GitError::WorktreeCreateError { path: path.clone(), source: cause.clone() },
            "Failed to create worktree at /r: boom",
        ),
        (GitError::StatusError(cause.clone()), "Failed to get repository status: boom"),
        (GitError::HeadError(cause.clone()), "Failed to get HEAD reference: boom"),
        (GitError::BranchListError(cause.clone()), "Failed to list branches: boom"),
        (GitError::WorktreeNotFound("wt".to_string()), "Worktree not found: wt"),
        (GitError::InvalidPath(path.clone()), "Invalid path: /r"),
    ];
    for (error, text) in cases {
        assert_eq!(error.message(), text);
    }
}

#[test]
fn tracker_counts_and_reports() {
    let tracker = ProgressTracker::new();
    assert_eq!((tracker.total(), tracker.copied()), (0, 0));
    tracker.set_total(3);
    tracker.increment_copied();
    tracker.increment_copied();
    assert_eq!((tracker.total(), tracker.copied()), (3, 2));
    let report = tracker.snapshot(Some("a.txt".to_string()));
    assert_eq!(report.files_total, 3);
    assert_eq!(report.files_copied, 2);
    assert_eq!(report.current_file, Some("a.txt".to_string()));
    let copy = report.clone();
    assert_eq!(copy.current_file, Some("a.txt".to_string()));
    let fresh = ProgressTracker::default();
    assert_eq!((fresh.total(), fresh.copied()), (0, 0));
    let made = CopyProgress::new(7, 5, None);
    assert_eq!((made.files_total, made.files_copied, made.current_file), (7, 5, None));
}

#[test]
fn questions_offer_the_right_choices() {
    let configs = vec![loaded("a/worktree.config.toml", "First", &[])];
    assert_eq!(config_choices(&configs), strings(&["a/worktree.config.toml - First"]));
    assert_eq!(obvious_selection(1), Some(vec![0]));
    assert_eq!(obvious_selection(0), None);
    assert_eq!(obvious_selection(2), None);

    assert_eq!(
        base_branch_options(&Some("main".to_string())),
        strings(&["Current HEAD", "main", "Enter custom branch/ref..."])
    );
    assert_eq!(base_branch_options(&None), strings(&["Current HEAD", "Enter custom branch/ref..."]));
    assert_eq!(base_branch_choice(true, 0), BaseChoice::CurrentHead);
    assert_eq!(base_branch_choice(true, 1), BaseChoice::DefaultBranch);
    assert_eq!(base_branch_choice(true, 2), BaseChoice::Custom);
    assert_eq!(base_branch_choice(false, 1), BaseChoice::Custom);

    assert_eq!(worktree_name("/home/me/feature-x"), "feature-x");
    assert_eq!(worktree_name("/"), "worktree");

    let (labels, choices) = creation_menu("wt", &Some("dev".to_string()));
    assert_eq!(
        labels,
        strings(&[
            "New branch (auto-named 'wt')",
            "New branch (custom name)...",
            "Use current branch (dev)",
            "Use existing branch...",
            "Detached HEAD (current commit)",
        ])
    );
    assert_eq!(
        choices,
        vec![
            CreationChoice::AutoNamed,
            CreationChoice::NewBranch,
            CreationChoice::CurrentBranch,
            CreationChoice::ExistingBranch,
            CreationChoice::Detached,
        ]
    );
    let (labels, choices) = creation_menu("wt", &None);
    assert_eq!(labels.len(), 4);
    assert_eq!(choices[2], CreationChoice::ExistingBranch);
}

#[test]
fn answers_come_to_the_right_options() {
    let auto = new_branch_options("wt".to_string(), None, false);
    assert_eq!((auto.branch, auto.new_branch, auto.detach), (None, None, false));
    let based = new_branch_options("wt".to_string(), Some("main".to_string()), false);
    assert_eq!(
        (based.branch, based.new_branch, based.detach),
        (Some("main".to_string()), Some("wt".to_string()), false)
    );
    let custom = new_branch_options("mine".to_string(), None, true);
    assert_eq!((custom.branch, custom.new_branch), (None, Some("mine".to_string())));
    let existing = existing_branch_options(Some("dev".to_string()));
    assert_eq!((existing.branch, existing.new_branch), (Some("dev".to_string()), None));
    let detached = detached_options();
    assert_eq!((detached.branch, detached.new_branch, detached.detach), (None, None, true));
}

#[test]
fn texts_are_searched_by_character() {
    assert_eq!(characters("aé∑"), vec!['a', 'é', '∑']);
    assert!(starts_with("worktree.config", "worktree"));
    assert!(!starts_with("work", "worktree"));
    assert!(starts_with("x", ""));
    assert!(contains("a.config.ts", ".config."));
    assert!(!contains("a.config", ".config."));
    assert!(contains("", ""));
    let text = characters("a to b to c");
    let needle = characters(" to ");
    assert_eq!(find(&text, &needle, 0), Some(1));
    assert_eq!(find(&text, &needle, 2), Some(6));
    assert_eq!(find(&text, &needle, 7), None);
    assert_eq!(find(&text, &needle, 100), None);
    assert_eq!(find(&text, &Vec::new(), 11), Some(11));
}

#[test]
fn operations_are_planned_from_resolved_paths() {
    let planned = |kind: OperationType, seen: &Snapshot| {
        plan_operation(kind, "a".to_string(), "/main/a".to_string(), "/target/a".to_string(), seen)
    };
    let mut seen = Snapshot::new();
    for kind in [OperationType::Symlink, OperationType::Copy, OperationType::Overwrite, OperationType::Template] {
        let op = planned(kind, &seen);
        assert!(op.will_skip);
        assert_eq!(op.skip_reason, Some("not found".to_string()));
        assert!(!op.is_directory);
    }
    assert!(!planned(OperationType::CopyGlob, &seen).will_skip);
    assert!(!planned(OperationType::Unstaged, &seen).will_skip);

    seen.record("/main/a".to_string(), PathStatus::directory(), 12);
    let copy = planned(OperationType::Copy, &seen);
    assert_eq!((copy.will_skip, copy.is_directory, copy.file_count), (false, true, 12));
    let link = planned(OperationType::Symlink, &seen);
    assert_eq!((link.will_skip, link.is_directory, link.file_count), (false, false, 0));
    let template = planned(OperationType::Template, &seen);
    assert_eq!((template.will_skip, template.is_directory, template.file_count), (false, false, 1));

    seen.record("/target/a".to_string(), PathStatus::file(), 0);
    assert_eq!(planned(OperationType::Copy, &seen).skip_reason, Some("exists".to_string()));
    assert_eq!(planned(OperationType::Copy, &seen).file_count, 0);
    assert_eq!(planned(OperationType::CopyGlob, &seen).skip_reason, Some("exists".to_string()));
    assert_eq!(planned(OperationType::CopyGlob, &seen).file_count, 1);
    assert_eq!(planned(OperationType::Template, &seen).skip_reason, Some("exists".to_string()));
    assert_eq!(planned(OperationType::Symlink, &seen).skip_reason, Some("exists".to_string()));
    let overwrite = planned(OperationType::Overwrite, &seen);
    assert_eq!((overwrite.will_skip, overwrite.is_directory, overwrite.file_count), (false, true, 12));
    assert_eq!(planned(OperationType::Unstaged, &seen).skip_reason, None);

    // A later record of a path replaces an earlier one.
    seen.record("/target/a".to_string(), PathStatus::missing(), 0);
    assert!(!planned(OperationType::Copy, &seen).will_skip);
}

#[test]
fn links_are_decided_from_what_occupies_the_target() {
    let linked = PathStatus { exists: false, is_file: false, is_dir: false, is_symlink: true };
    let execution = link("/s/d", "/t/d", Some("/t".to_string()), true, linked);
    assert_eq!(execution.result, OperationResult::Exists);
    assert!(execution.steps.is_empty());

    let execution = link("/s/d", "/t/d", Some("/t".to_string()), false, PathStatus::missing());
    assert_eq!(execution.result, OperationResult::Skipped);
    assert!(execution.steps.is_empty());

    let execution = link("/s/d", "/t/d", Some("/t".to_string()), true, PathStatus::missing());
    assert_eq!(execution.result, OperationResult::Created);
    assert_eq!(execution.steps.len(), 2);
    assert!(matches!(&execution.steps[0], Step::CreateDirAll { path } if path == "/t"));
    assert!(matches!(
        &execution.steps[1],
        Step::Symlink { source, target } if source == "/s/d" && target == "/t/d"
    ));

    let execution = link("/s/d", "/t/d", None, true, PathStatus::file());
    assert_eq!(execution.steps.len(), 2);
    assert!(matches!(&execution.steps[0], Step::RemoveFile { path } if path == "/t/d"));
}

#[test]
fn names_and_formats_are_told_from_plain_values() {
    assert_eq!(name_to_show(Some("my-app".to_string()), "apps/my-app/c.toml"), "my-app");
    assert_eq!(name_to_show(Some(".".to_string()), "c.toml"), "c.toml");
    assert_eq!(name_to_show(Some("..".to_string()), "c.toml"), "c.toml");
    assert_eq!(name_to_show(None, "c.toml"), "c.toml");
    assert_eq!(format_for("toml".to_string()).unwrap(), ConfigFormat::Toml);
    assert_eq!(format_for("ts".to_string()).unwrap(), ConfigFormat::TypeScript);
    assert!(matches!(format_for("TOML".to_string()), Err(ConfigError::UnsupportedFormat(_))));
    assert!(is_config_name("worktree.config.toml"));
    assert!(!is_config_name("worktree.toml"));
}
