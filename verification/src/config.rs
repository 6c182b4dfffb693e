//! Configurations: what a configuration declares, where it was loaded
//! from, and how a loaded configuration is told from a path and its parsed
//! content.

use crate::text::begins_with;
use crate::text::compose;
use crate::text::contains;
use crate::text::copies_of;
use crate::text::includes;
use crate::text::optional_text;
use crate::text::starts_with;
use crate::text::texts;
use crate::trusted::extension;
use crate::trusted::extension_of;
use crate::trusted::file_name;
use crate::trusted::final_component;
use crate::trusted::join;
use crate::trusted::joined;
use crate::trusted::parent;
use crate::trusted::parent_of;
use crate::trusted::path_ordered;
use crate::trusted::sort_paths;
use crate::trusted::strip_prefix;
use crate::trusted::trim;
use crate::trusted::trimmed;
use crate::trusted::without_prefix;
use vstd::prelude::*;
use vstd::string::*;

verus! {

/// A template: the file at `source` is copied to `target` unless
/// something is there already.
#[derive(Debug)]
pub struct TemplateMapping {
    /// Declared path of the source.
    pub source: String,
    /// Declared path of the target.
    pub target: String,
}

/// Mathematical form of a [`TemplateMapping`].
pub ghost struct TemplateMappingView {
    pub source: Seq<char>,
    pub target: Seq<char>,
}

impl View for TemplateMapping {
    type V = TemplateMappingView;

    open spec fn view(&self) -> TemplateMappingView {
        TemplateMappingView { source: self.source@, target: self.target@ }
    }
}

impl Clone for TemplateMapping {
    fn clone(&self) -> (out: TemplateMapping)
        ensures
            out@ == self@,
    {
        TemplateMapping { source: self.source.clone(), target: self.target.clone() }
    }
}

/// The views of a sequence of templates.
pub open spec fn templates_of(templates: Seq<TemplateMapping>) -> Seq<TemplateMappingView> {
    templates.map_values(|template: TemplateMapping| template@)
}

/// What a configuration declares. A declared path that begins with the
/// separator is relative to the repository root; any other is relative to
/// the directory of the configuration.
#[derive(Debug)]
pub struct Config {
    /// Description for the reader.
    pub description: String,
    /// Paths to link from the main working copy.
    pub symlinks: Vec<String>,
    /// Paths to copy unless the target has them.
    pub copy: Vec<String>,
    /// Paths to copy over whatever the target has.
    pub overwrite: Vec<String>,
    /// Glob patterns of files to copy.
    pub copy_glob: Vec<String>,
    /// Whether files with uncommitted changes are copied too.
    pub copy_unstaged: bool,
    /// Templates to copy.
    pub templates: Vec<TemplateMapping>,
    /// Commands to run once the setup is done.
    pub post_setup: Vec<String>,
}

/// Mathematical form of a [`Config`].
pub ghost struct ConfigView {
    pub description: Seq<char>,
    pub symlinks: Seq<Seq<char>>,
    pub copy: Seq<Seq<char>>,
    pub overwrite: Seq<Seq<char>>,
    pub copy_glob: Seq<Seq<char>>,
    pub copy_unstaged: bool,
    pub templates: Seq<TemplateMappingView>,
    pub post_setup: Seq<Seq<char>>,
}

impl View for Config {
    type V = ConfigView;

    open spec fn view(&self) -> ConfigView {
        ConfigView {
            description: self.description@,
            symlinks: texts(self.symlinks@),
            copy: texts(self.copy@),
            overwrite: texts(self.overwrite@),
            copy_glob: texts(self.copy_glob@),
            copy_unstaged: self.copy_unstaged,
            templates: templates_of(self.templates@),
            post_setup: texts(self.post_setup@),
        }
    }
}

impl Clone for Config {
    fn clone(&self) -> (out: Config)
        ensures
            out@ == self@,
    {
        let mut templates: Vec<TemplateMapping> = Vec::new();
        let mut i: usize = 0;
        while i < self.templates.len()
            invariant
                i <= self.templates.len(),
                templates_of(templates@) == templates_of(self.templates@).take(i as int),
            decreases self.templates.len() - i,
        {
            let ghost before = templates_of(templates@);
            let template = self.templates[i].clone();
            templates.push(template);
            proof {
                assert(templates_of(templates@) =~= before.push(template@));
                assert(templates_of(self.templates@).take(i + 1) =~= templates_of(
                    self.templates@,
                ).take(i as int).push(self.templates@[i as int]@));
            }
            i += 1;
        }
        proof {
            assert(templates_of(self.templates@).take(i as int) =~= templates_of(self.templates@));
        }
        Config {
            description: self.description.clone(),
            symlinks: copies_of(&self.symlinks),
            copy: copies_of(&self.copy),
            overwrite: copies_of(&self.overwrite),
            copy_glob: copies_of(&self.copy_glob),
            copy_unstaged: self.copy_unstaged,
            templates,
            post_setup: copies_of(&self.post_setup),
        }
    }
}

/// The configuration that declares nothing.
pub open spec fn empty_config() -> ConfigView {
    ConfigView {
        description: Seq::empty(),
        symlinks: Seq::empty(),
        copy: Seq::empty(),
        overwrite: Seq::empty(),
        copy_glob: Seq::empty(),
        copy_unstaged: false,
        templates: Seq::empty(),
        post_setup: Seq::empty(),
    }
}

impl Default for Config {
    fn default() -> (out: Config)
        ensures
            out@ == empty_config(),
    {
        let out = Config {
            description: String::new(),
            symlinks: Vec::new(),
            copy: Vec::new(),
            overwrite: Vec::new(),
            copy_glob: Vec::new(),
            copy_unstaged: false,
            templates: Vec::new(),
            post_setup: Vec::new(),
        };
        proof {
            assert(out@.symlinks =~= Seq::empty());
            assert(out@.copy =~= Seq::empty());
            assert(out@.overwrite =~= Seq::empty());
            assert(out@.copy_glob =~= Seq::empty());
            assert(out@.templates =~= Seq::empty());
            assert(out@.post_setup =~= Seq::empty());
        }
        out
    }
}

/// A configuration together with where it was found.
#[derive(Debug)]
pub struct LoadedConfig {
    /// What the file declares.
    pub config: Config,
    /// Absolute path of the file.
    pub config_path: String,
    /// Directory that holds the file.
    pub config_dir: String,
    /// Path of the file relative to the repository root.
    pub relative_path: String,
}

/// Mathematical form of a [`LoadedConfig`].
pub ghost struct LoadedConfigView {
    pub config: ConfigView,
    pub config_path: Seq<char>,
    pub config_dir: Seq<char>,
    pub relative_path: Seq<char>,
}

impl View for LoadedConfig {
    type V = LoadedConfigView;

    open spec fn view(&self) -> LoadedConfigView {
        LoadedConfigView {
            config: self.config@,
            config_path: self.config_path@,
            config_dir: self.config_dir@,
            relative_path: self.relative_path@,
        }
    }
}

impl Clone for LoadedConfig {
    fn clone(&self) -> (out: LoadedConfig)
        ensures
            out@ == self@,
    {
        LoadedConfig {
            config: self.config.clone(),
            config_path: self.config_path.clone(),
            config_dir: self.config_dir.clone(),
            relative_path: self.relative_path.clone(),
        }
    }
}

/// A failure to find or load a configuration. Where a failure has an
/// underlying cause, the variant carries its text.
#[derive(Debug)]
pub enum ConfigError {
    /// The file could not be read.
    ReadError { path: String, source: String },
    /// The file is no valid TOML configuration.
    TomlParseError { path: String, source: String },
    /// What the script runtime printed is no valid configuration.
    JsonParseError { path: String, source: String },
    /// The script runtime failed.
    TypeScriptEvalError { path: String, message: String },
    /// No script runtime could load the file.
    NoJsRuntime,
    /// The extension of the file names no supported format.
    UnsupportedFormat(String),
    /// The path has no parent.
    InvalidPath(String),
    /// The search for configurations failed.
    IoError(String),
}

/// Mathematical form of a [`ConfigError`].
pub ghost enum ConfigErrorView {
    ReadError { path: Seq<char>, source: Seq<char> },
    TomlParseError { path: Seq<char>, source: Seq<char> },
    JsonParseError { path: Seq<char>, source: Seq<char> },
    TypeScriptEvalError { path: Seq<char>, message: Seq<char> },
    NoJsRuntime,
    UnsupportedFormat(Seq<char>),
    InvalidPath(Seq<char>),
    IoError(Seq<char>),
}

impl View for ConfigError {
    type V = ConfigErrorView;

    open spec fn view(&self) -> ConfigErrorView {
        match self {
            ConfigError::ReadError { path, source } => ConfigErrorView::ReadError {
                path: path@,
                source: source@,
            },
            ConfigError::TomlParseError { path, source } => ConfigErrorView::TomlParseError {
                path: path@,
                source: source@,
            },
            ConfigError::JsonParseError { path, source } => ConfigErrorView::JsonParseError {
                path: path@,
                source: source@,
            },
            ConfigError::TypeScriptEvalError {
                path,
                message,
            } => ConfigErrorView::TypeScriptEvalError { path: path@, message: message@ },
            ConfigError::NoJsRuntime => ConfigErrorView::NoJsRuntime,
            ConfigError::UnsupportedFormat(extension) => ConfigErrorView::UnsupportedFormat(
                extension@,
            ),
            ConfigError::InvalidPath(path) => ConfigErrorView::InvalidPath(path@),
            ConfigError::IoError(message) => ConfigErrorView::IoError(message@),
        }
    }
}

impl ConfigErrorView {
    /// The text that describes the failure.
    pub open spec fn message(self) -> Seq<char> {
        match self {
            ConfigErrorView::ReadError { path, source } => "Failed to read config file "@ + path
                + ": "@ + source,
            ConfigErrorView::TomlParseError { path, source } => "Failed to parse TOML config "@
                + path + ": "@ + source,
            ConfigErrorView::JsonParseError {
                path,
                source,
            } => "Failed to parse JSON from TypeScript config "@ + path + ": "@ + source,
            ConfigErrorView::TypeScriptEvalError {
                path,
                message,
            } => "TypeScript evaluation failed for "@ + path + ": "@ + message,
            ConfigErrorView::NoJsRuntime => "No JavaScript runtime found. Please install bun or deno."@,
            ConfigErrorView::UnsupportedFormat(extension) => "Unsupported config format: "@
                + extension,
            ConfigErrorView::InvalidPath(path) => "Invalid config path: "@ + path,
            ConfigErrorView::IoError(message) => "IO error during config discovery: "@ + message,
        }
    }
}

impl ConfigError {
    /// The text that describes the failure.
    pub fn message(&self) -> (out: String)
        ensures
            out@ == self@.message(),
    {
        match self {
            ConfigError::ReadError { path, source } => compose(
                "Failed to read config file ",
                path.as_str(),
                ": ",
                source.as_str(),
            ),
            ConfigError::TomlParseError { path, source } => compose(
                "Failed to parse TOML config ",
                path.as_str(),
                ": ",
                source.as_str(),
            ),
            ConfigError::JsonParseError { path, source } => compose(
                "Failed to parse JSON from TypeScript config ",
                path.as_str(),
                ": ",
                source.as_str(),
            ),
            ConfigError::TypeScriptEvalError { path, message } => compose(
                "TypeScript evaluation failed for ",
                path.as_str(),
                ": ",
                message.as_str(),
            ),
            ConfigError::NoJsRuntime => String::from_str(
                "No JavaScript runtime found. Please install bun or deno.",
            ),
            ConfigError::UnsupportedFormat(extension) => {
                let mut text = String::from_str("Unsupported config format: ");
                text.append(extension.as_str());
                text
            },
            ConfigError::InvalidPath(path) => {
                let mut text = String::from_str("Invalid config path: ");
                text.append(path.as_str());
                text
            },
            ConfigError::IoError(message) => {
                let mut text = String::from_str("IO error during config discovery: ");
                text.append(message.as_str());
                text
            },
        }
    }
}

/// The name to show for a configuration whose directory has the name
/// `name`: that name, or the relative path where the directory has no
/// proper name.
pub open spec fn shown_name(name: Option<Seq<char>>, relative_path: Seq<char>) -> Seq<char> {
    match name {
        Some(name) => if name != "."@ && name != ".."@ {
            name
        } else {
            relative_path
        },
        None => relative_path,
    }
}

/// The name under which a configuration is shown: the name of its
/// directory, or its relative path where the directory has no proper name.
pub open spec fn display_name(config: LoadedConfigView) -> Seq<char> {
    shown_name(final_component(config.config_dir), config.relative_path)
}

/// Picks the name to show for a configuration, given the name of its
/// directory and its relative path.
pub fn name_to_show(name: Option<String>, relative_path: &str) -> (out: String)
    ensures
        out@ == shown_name(optional_text(name), relative_path@),
{
    match name {
        Some(name) => {
            if name != String::from_str(".") && name != String::from_str("..") {
                name
            } else {
                relative_path.to_owned()
            }
        },
        None => relative_path.to_owned(),
    }
}

/// A short name for a loaded configuration.
pub fn get_config_display_name(config: &LoadedConfig) -> (out: String)
    ensures
        out@ == display_name(config@),
{
    name_to_show(file_name(config.config_dir.as_str()), config.relative_path.as_str())
}

/// The formats in which a configuration can be written.
#[derive(Debug, Clone, Copy, PartialEq, Eq, Structural)]
pub enum ConfigFormat {
    /// TOML, parsed directly.
    Toml,
    /// A script, evaluated by a runtime.
    TypeScript,
}

/// The extension of `path`, or the empty text where it has none.
pub open spec fn extension_or_empty(path: Seq<char>) -> Seq<char> {
    match extension_of(path) {
        Some(extension) => extension,
        None => Seq::empty(),
    }
}

/// The format that an extension names.
pub open spec fn format_named(extension: Seq<char>) -> Option<ConfigFormat> {
    if extension == "toml"@ {
        Some(ConfigFormat::Toml)
    } else if extension == "ts"@ {
        Some(ConfigFormat::TypeScript)
    } else {
        None
    }
}

/// The format that the extension of `path` names.
pub open spec fn format_of(path: Seq<char>) -> Option<ConfigFormat> {
    format_named(extension_or_empty(path))
}

/// Tells the format of a configuration from the extension of its file.
pub fn format_for(extension: String) -> (out: Result<ConfigFormat, ConfigError>)
    ensures
        match out {
            Ok(format) => format_named(extension@) == Some(format),
            Err(error) => format_named(extension@) is None && error@
                == ConfigErrorView::UnsupportedFormat(extension@),
        },
{
    if extension == String::from_str("toml") {
        Ok(ConfigFormat::Toml)
    } else if extension == String::from_str("ts") {
        Ok(ConfigFormat::TypeScript)
    } else {
        Err(ConfigError::UnsupportedFormat(extension))
    }
}

/// Tells the format of the configuration at `path` from its extension.
pub fn config_format(path: &str) -> (out: Result<ConfigFormat, ConfigError>)
    ensures
        match out {
            Ok(format) => format_of(path@) == Some(format),
            Err(error) => format_of(path@) is None && error@ == ConfigErrorView::UnsupportedFormat(
                extension_or_empty(path@),
            ),
        },
{
    let found = match extension(path) {
        Some(found) => found,
        None => String::new(),
    };
    format_for(found)
}

/// The path of a configuration relative to the repository root, or the
/// whole path where it does not lie under the root.
pub open spec fn relative_to_root(path: Seq<char>, repo_root: Seq<char>) -> Seq<char> {
    match without_prefix(path, repo_root) {
        Some(relative) => relative,
        None => path,
    }
}

/// What loading the configuration at `path` comes to, its content being
/// `config`: a refusal of an unsupported format first, of a path without
/// parent next, and otherwise the configuration with its whereabouts.
pub open spec fn loaded(path: Seq<char>, repo_root: Seq<char>, config: ConfigView) -> Result<
    LoadedConfigView,
    ConfigErrorView,
> {
    if format_of(path) is None {
        Err(ConfigErrorView::UnsupportedFormat(extension_or_empty(path)))
    } else {
        match parent_of(path) {
            None => Err(ConfigErrorView::InvalidPath(path)),
            Some(dir) => Ok(
                LoadedConfigView {
                    config,
                    config_path: path,
                    config_dir: dir,
                    relative_path: relative_to_root(path, repo_root),
                },
            ),
        }
    }
}

/// Makes a loaded configuration of the content `config` of the file at
/// `path`.
pub fn load_config(path: &str, repo_root: &str, config: Config) -> (out: Result<
    LoadedConfig,
    ConfigError,
>)
    ensures
        match out {
            Ok(found) => loaded(path@, repo_root@, config@) == Ok::<
                LoadedConfigView,
                ConfigErrorView,
            >(found@),
            Err(error) => loaded(path@, repo_root@, config@) == Err::<
                LoadedConfigView,
                ConfigErrorView,
            >(error@),
        },
{
    match config_format(path) {
        Ok(_) => {},
        Err(error) => {
            return Err(error);
        },
    }
    let config_dir = match parent(path) {
        Some(dir) => dir,
        None => {
            return Err(ConfigError::InvalidPath(path.to_owned()));
        },
    };
    let relative_path = match strip_prefix(path, repo_root) {
        Some(relative) => relative,
        None => path.to_owned(),
    };
    Ok(LoadedConfig { config, config_path: path.to_owned(), config_dir, relative_path })
}

/// The runtimes that can evaluate a configuration written as a script, in
/// the order in which they are tried.
#[derive(Debug, Clone, Copy, PartialEq, Eq, Structural)]
pub enum JsRuntime {
    /// Tried first.
    Bun,
    /// Tried second.
    Deno,
}

impl JsRuntime {
    /// The name of the program.
    pub open spec fn program(self) -> Seq<char> {
        match self {
            JsRuntime::Bun => "bun"@,
            JsRuntime::Deno => "deno"@,
        }
    }

    /// The name of the program, as it is called.
    pub fn name(&self) -> (out: String)
        ensures
            out@ == self.program(),
    {
        match self {
            JsRuntime::Bun => String::from_str("bun"),
            JsRuntime::Deno => String::from_str("deno"),
        }
    }
}

/// The script that prints the configuration at `path` as JSON.
pub open spec fn script_for(path: Seq<char>) -> Seq<char> {
    "const m = await import(\"file://"@ + path
        + "\"); console.log(JSON.stringify(m.default ?? m));"@
}

/// The script that prints the configuration at `path` as JSON.
pub fn import_script(path: &str) -> (out: String)
    ensures
        out@ == script_for(path@),
{
    let mut script = String::from_str("const m = await import(\"file://");
    script.append(path);
    script.append("\"); console.log(JSON.stringify(m.default ?? m));");
    script
}

/// The arguments with which `runtime` evaluates the configuration at
/// `path`.
pub open spec fn runtime_arguments_of(runtime: JsRuntime, path: Seq<char>) -> Seq<Seq<char>> {
    match runtime {
        JsRuntime::Bun => seq!["-e"@, script_for(path)],
        JsRuntime::Deno => seq!["eval"@, "--allow-read"@, script_for(path)],
    }
}

/// The arguments with which `runtime` evaluates the configuration at
/// `path`.
pub fn runtime_arguments(runtime: JsRuntime, path: &str) -> (out: Vec<String>)
    ensures
        texts(out@) == runtime_arguments_of(runtime, path@),
{
    let mut arguments: Vec<String> = Vec::new();
    match runtime {
        JsRuntime::Bun => {
            arguments.push(String::from_str("-e"));
        },
        JsRuntime::Deno => {
            arguments.push(String::from_str("eval"));
            arguments.push(String::from_str("--allow-read"));
        },
    }
    arguments.push(import_script(path));
    proof {
        assert(texts(arguments@) =~= runtime_arguments_of(runtime, path@));
    }
    arguments
}

/// What a runtime left behind when it ended.
#[derive(Debug)]
pub struct ProcessOutput {
    /// Whether it ended well.
    pub success: bool,
    /// What it printed.
    pub stdout: String,
    /// What it complained of.
    pub stderr: String,
}

/// The JSON text that an evaluation gives, or its failure: a runtime that
/// could not be started and one that ended badly both fail the
/// evaluation; one that ended well gives what it printed, trimmed.
pub open spec fn evaluation(
    runtime: JsRuntime,
    path: Seq<char>,
    launched: Result<ProcessOutput, String>,
) -> Result<Seq<char>, ConfigErrorView> {
    match launched {
        Err(cause) => Err(
            ConfigErrorView::TypeScriptEvalError {
                path,
                message: "Failed to run "@ + runtime.program() + ": "@ + cause@,
            },
        ),
        Ok(output) => if !output.success {
            Err(ConfigErrorView::TypeScriptEvalError { path, message: output.stderr@ })
        } else {
            Ok(trimmed(output.stdout@))
        },
    }
}

/// Reads the outcome of the evaluation of the configuration at `path` by
/// `runtime`.
pub fn evaluated(runtime: JsRuntime, path: &str, launched: &Result<ProcessOutput, String>) -> (out:
    Result<String, ConfigError>)
    ensures
        match out {
            Ok(json) => evaluation(runtime, path@, *launched) == Ok::<Seq<char>, ConfigErrorView>(
                json@,
            ),
            Err(error) => evaluation(runtime, path@, *launched) == Err::<
                Seq<char>,
                ConfigErrorView,
            >(error@),
        },
{
    match launched {
        Err(cause) => {
            let program = runtime.name();
            Err(
                ConfigError::TypeScriptEvalError {
                    path: path.to_owned(),
                    message: compose("Failed to run ", program.as_str(), ": ", cause.as_str()),
                },
            )
        },
        Ok(output) => {
            if !output.success {
                Err(
                    ConfigError::TypeScriptEvalError {
                        path: path.to_owned(),
                        message: output.stderr.clone(),
                    },
                )
            } else {
                Ok(trim(output.stdout.as_str()))
            }
        },
    }
}

/// The runtimes to try, in order.
pub fn runtimes() -> (out: Vec<JsRuntime>)
    ensures
        out@ == seq![JsRuntime::Bun, JsRuntime::Deno],
{
    let mut out: Vec<JsRuntime> = Vec::new();
    out.push(JsRuntime::Bun);
    out.push(JsRuntime::Deno);
    out
}

/// Settles the loading of a configuration written as a script, given the
/// outcome of each runtime that was tried, in the order of trying: the
/// first success is the configuration; without one, no runtime is there.
pub fn load_ts_config(attempts: Vec<Result<Config, ConfigError>>) -> (out: Result<Config, ConfigError>)
    ensures
        match out {
            Ok(config) => exists|i: int|
                0 <= i < attempts.len() && (#[trigger] attempts[i]) == Ok::<Config, ConfigError>(
                    config,
                ) && forall|j: int| 0 <= j < i ==> (#[trigger] attempts[j]) is Err,
            Err(error) => error@ == ConfigErrorView::NoJsRuntime && forall|j: int|
                0 <= j < attempts.len() ==> (#[trigger] attempts[j]) is Err,
        },
{
    let ghost all = attempts@;
    for attempt in iter: attempts.into_iter()
        invariant
            iter.seq() == all,
            forall|j: int| 0 <= j < iter.index@ ==> (#[trigger] all[j]) is Err,
    {
        match attempt {
            Ok(config) => {
                assert(all[iter.index@] == Ok::<Config, ConfigError>(config));
                return Ok(config);
            },
            Err(_) => {},
        }
    }
    Err(ConfigError::NoJsRuntime)
}

/// A file is taken for a configuration when its name begins with
/// `worktree` and holds `.config.`.
pub open spec fn names_config(name: Seq<char>) -> bool {
    begins_with(name, "worktree"@) && includes(name, ".config."@)
}

/// Tells whether a file of the name `name` is taken for a configuration.
pub fn is_config_name(name: &str) -> (out: bool)
    ensures
        out == names_config(name@),
{
    starts_with(name, "worktree") && contains(name, ".config.")
}

/// The name of the file at `path`, or the empty text where it has none.
pub open spec fn name_or_empty(path: Seq<char>) -> Seq<char> {
    match final_component(path) {
        Some(name) => name,
        None => Seq::empty(),
    }
}

/// Tells whether the file at `path` is taken for a configuration.
pub fn is_config_file(path: &str) -> (out: bool)
    ensures
        out == names_config(name_or_empty(path@)),
{
    let name = match file_name(path) {
        Some(name) => name,
        None => String::new(),
    };
    is_config_name(name.as_str())
}

/// The configurations among `lines`, each under `repo_root`, in the order
/// of the lines.
pub open spec fn candidates(lines: Seq<Seq<char>>, repo_root: Seq<char>) -> Seq<Seq<char>>
    decreases lines.len(),
{
    if lines.len() == 0 {
        Seq::empty()
    } else {
        let before = candidates(lines.drop_last(), repo_root);
        if names_config(name_or_empty(lines.last())) {
            before.push(joined(repo_root, lines.last()))
        } else {
            before
        }
    }
}

/// Picks the configurations out of the files that version control lists,
/// given their paths relative to the repository root, and puts them in
/// the order of paths.
pub fn discover_configs(lines: &Vec<String>, repo_root: &str) -> (out: Vec<String>)
    ensures
        texts(out@).to_multiset() == candidates(texts(lines@), repo_root@).to_multiset(),
        path_ordered(texts(out@)),
{
    let ghost all = texts(lines@);
    let mut configs: Vec<String> = Vec::new();
    let mut i: usize = 0;
    proof {
        assert(all.take(0) =~= Seq::<Seq<char>>::empty());
        assert(texts(configs@) =~= Seq::<Seq<char>>::empty());
    }
    while i < lines.len()
        invariant
            i <= lines.len(),
            all == texts(lines@),
            texts(configs@) == candidates(all.take(i as int), repo_root@),
        decreases lines.len() - i,
    {
        proof {
            assert(all.take(i + 1).drop_last() =~= all.take(i as int));
            assert(all.take(i + 1).last() == lines@[i as int]@);
        }
        if is_config_file(lines[i].as_str()) {
            let ghost before = texts(configs@);
            let path = join(repo_root, lines[i].as_str());
            configs.push(path);
            proof {
                assert(texts(configs@) =~= before.push(path@));
            }
        }
        i += 1;
    }
    proof {
        assert(all.take(i as int) =~= all);
    }
    sort_paths(&mut configs);
    configs
}

/// The arguments with which version control lists the files that may be
/// configurations.
pub fn discovery_arguments() -> (out: Vec<String>)
    ensures
        texts(out@) == seq![
            "ls-files"@,
            "--cached"@,
            "--others"@,
            "--exclude-standard"@,
            "*.config.toml"@,
            "*.config.ts"@,
        ],
{
    let mut arguments: Vec<String> = Vec::new();
    arguments.push(String::from_str("ls-files"));
    arguments.push(String::from_str("--cached"));
    arguments.push(String::from_str("--others"));
    arguments.push(String::from_str("--exclude-standard"));
    arguments.push(String::from_str("*.config.toml"));
    arguments.push(String::from_str("*.config.ts"));
    proof {
        assert(texts(arguments@) =~= seq![
            "ls-files"@,
            "--cached"@,
            "--others"@,
            "--exclude-standard"@,
            "*.config.toml"@,
            "*.config.ts"@,
        ]);
    }
    arguments
}

/// The patterns by which the configurations are searched on disk where
/// version control cannot list them.
pub fn discovery_patterns() -> (out: Vec<String>)
    ensures
        texts(out@) == seq![
            "**/worktree.config.toml"@,
            "**/worktree.config.ts"@,
            "**/worktree.*.config.toml"@,
            "**/worktree.*.config.ts"@,
        ],
{
    let mut patterns: Vec<String> = Vec::new();
    patterns.push(String::from_str("**/worktree.config.toml"));
    patterns.push(String::from_str("**/worktree.config.ts"));
    patterns.push(String::from_str("**/worktree.*.config.toml"));
    patterns.push(String::from_str("**/worktree.*.config.ts"));
    proof {
        assert(texts(patterns@) =~= seq![
            "**/worktree.config.toml"@,
            "**/worktree.config.ts"@,
            "**/worktree.*.config.toml"@,
            "**/worktree.*.config.ts"@,
        ]);
    }
    patterns
}

/// Tells whether a path found on disk lies among installed packages,
/// where no configuration is searched.
pub fn is_vendored(path: &str) -> (out: bool)
    ensures
        out == includes(path@, "node_modules"@),
{
    contains(path, "node_modules")
}

} // verus!
