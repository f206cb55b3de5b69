use vstd::prelude::*;

use crate::consts::{
    TREE_SITTER_PLATFORM, TREE_SITTER_REPO, TREE_SITTER_VERSION, TSP_BUILD_DIR, TSP_FRESH,
    TSP_OUT, TSP_SHOW_CONFIG, TSP_STATIC,
};
use crate::text::{clone_strings, owned};

verus! {

/// Whether log lines are coloured.
#[derive(Clone, Copy, Debug, PartialEq, Eq, Structural)]
pub enum Color {
    Auto,
    No,
    Yes,
}

/// Which configuration `config` prints.
#[derive(Clone, Copy, Debug, PartialEq, Eq, Structural)]
pub enum ConfigCommand {
    Current,
    Default,
}

/// The toolchain that every target is built against.
#[derive(Clone, Debug, PartialEq, Eq)]
pub struct TreeSitter {
    /// Toolchain version, with or without a leading `v`.
    pub version: String,
    /// Repository that publishes the toolchain.
    pub repo: String,
    /// Platform identifier of the executable to fetch.
    pub platform: String,
}

/// Mathematical value of a [`TreeSitter`].
pub struct TreeSitterView {
    pub version: Seq<char>,
    pub repo: Seq<char>,
    pub platform: Seq<char>,
}

impl DeepView for TreeSitter {
    type V = TreeSitterView;

    open spec fn deep_view(&self) -> TreeSitterView {
        TreeSitterView { version: self.version@, repo: self.repo@, platform: self.platform@ }
    }
}

/// Where a target's sources come from, as a user writes it down: either a bare
/// ref, or a record whose repository and sub-grammars are optional.
#[derive(Clone, Debug, PartialEq, Eq)]
pub enum ParserConfig {
    Full { git_ref: String, from: Option<String>, parsers: Option<Vec<String>> },
    Ref(String),
}

/// Mathematical value of a [`ParserConfig`].
pub enum ParserConfigView {
    Full { git_ref: Seq<char>, from: Option<Seq<char>>, parsers: Option<Seq<Seq<char>>> },
    Ref(Seq<char>),
}

impl DeepView for ParserConfig {
    type V = ParserConfigView;

    open spec fn deep_view(&self) -> ParserConfigView {
        match self {
            ParserConfig::Full { git_ref, from, parsers } => ParserConfigView::Full {
                git_ref: git_ref@,
                from: from.deep_view(),
                parsers: parsers.deep_view(),
            },
            ParserConfig::Ref(git_ref) => ParserConfigView::Ref(git_ref@),
        }
    }
}

/// The build configuration.
///
/// `parsers` is an association list: a name is looked up from the front, so
/// of two entries with one name only the first is ever read. A configuration
/// that is resolved has at least one worker, and one that is read from a file
/// names no target twice (see [`well_formed`]).
#[derive(Clone, Debug, PartialEq, Eq)]
pub struct BuildCommand {
    /// Requested target names; absent or empty stands for every configured target.
    pub languages: Option<Vec<String>>,
    /// Source coordinates by target name.
    pub parsers: Option<Vec<(String, ParserConfig)>>,
    /// Directory in which sources are fetched and built.
    pub build_dir: String,
    /// Whether parsers are linked statically to the toolchain library.
    pub build_static: bool,
    /// Number of workers.
    pub jobs: usize,
    /// Whether the build directory is emptied first.
    pub fresh: bool,
    /// Directory that receives the built parsers.
    pub out: String,
    /// Whether the configuration is shown before the build.
    pub show_config: bool,
    /// The toolchain.
    pub tree_sitter: TreeSitter,
}

/// Mathematical value of a [`BuildCommand`].
pub struct BuildCommandView {
    pub languages: Option<Seq<Seq<char>>>,
    pub parsers: Option<Seq<(Seq<char>, ParserConfigView)>>,
    pub build_dir: Seq<char>,
    pub build_static: bool,
    pub jobs: usize,
    pub fresh: bool,
    pub out: Seq<char>,
    pub show_config: bool,
    pub tree_sitter: TreeSitterView,
}

impl DeepView for BuildCommand {
    type V = BuildCommandView;

    open spec fn deep_view(&self) -> BuildCommandView {
        BuildCommandView {
            languages: self.languages.deep_view(),
            parsers: self.parsers.deep_view(),
            build_dir: self.build_dir@,
            build_static: self.build_static,
            jobs: self.jobs,
            fresh: self.fresh,
            out: self.out@,
            show_config: self.show_config,
            tree_sitter: self.tree_sitter.deep_view(),
        }
    }
}

/// What the program is asked to do.
#[derive(Clone, Debug, PartialEq, Eq)]
pub enum Command {
    /// Build one or many parsers.
    Build(BuildCommand),
    /// Configuration helpers.
    Config { command: ConfigCommand },
}

/// Mathematical value of a [`Command`].
pub enum CommandView {
    Build(BuildCommandView),
    Config { command: ConfigCommand },
}

impl DeepView for Command {
    type V = CommandView;

    open spec fn deep_view(&self) -> CommandView {
        match self {
            Command::Build(build) => CommandView::Build(build.deep_view()),
            Command::Config { command } => CommandView::Config { command: *command },
        }
    }
}

/// How much is logged.
#[derive(Clone, Copy, Debug, PartialEq, Eq, Structural)]
pub enum LogLevel {
    Off,
    Error,
    Warn,
    Info,
    Debug,
    Trace,
}

/// The arguments of the program.
#[derive(Clone, Debug, PartialEq, Eq)]
pub struct Args {
    /// What to do; a build where nothing is named.
    pub command: Option<Command>,
    /// Path to the configuration file.
    pub config: String,
    /// Path to the log file, where one is asked for.
    pub log: Option<String>,
    /// Whether log lines are coloured.
    pub log_color: Color,
    /// How much is logged.
    pub verbose: LogLevel,
}

/// Mathematical value of [`Args`].
pub struct ArgsView {
    pub command: Option<CommandView>,
    pub config: Seq<char>,
    pub log: Option<Seq<char>>,
    pub log_color: Color,
    pub verbose: LogLevel,
}

impl DeepView for Args {
    type V = ArgsView;

    open spec fn deep_view(&self) -> ArgsView {
        ArgsView {
            command: self.command.deep_view(),
            config: self.config@,
            log: self.log.deep_view(),
            log_color: self.log_color,
            verbose: self.verbose,
        }
    }
}

/// Whether no two entries of an association list have the same name.
pub open spec fn distinct_names(entries: Seq<(Seq<char>, ParserConfigView)>) -> bool {
    forall|i: int, j: int|
        0 <= i < j < entries.len() ==> (#[trigger] entries[i]).0 != (#[trigger] entries[j]).0
}

/// Whether a configuration names no target twice among its configured targets.
pub open spec fn named_once(config: BuildCommandView) -> bool {
    config.parsers matches Some(entries) ==> distinct_names(entries)
}

/// Whether a configuration can be built with: it has at least one worker,
/// and it names no target twice among its configured targets.
pub open spec fn well_formed(config: BuildCommandView) -> bool {
    config.jobs >= 1 && named_once(config)
}

/// The toolchain that is built when nothing else is configured.
pub open spec fn default_tree_sitter() -> TreeSitterView {
    TreeSitterView {
        version: TREE_SITTER_VERSION@,
        repo: TREE_SITTER_REPO@,
        platform: TREE_SITTER_PLATFORM@,
    }
}

/// The configuration that holds when nothing else is configured, on a machine
/// that offers `jobs` workers.
pub open spec fn default_build(jobs: usize) -> BuildCommandView {
    BuildCommandView {
        languages: None,
        parsers: None,
        build_dir: TSP_BUILD_DIR@,
        build_static: TSP_STATIC,
        jobs,
        fresh: TSP_FRESH,
        out: TSP_OUT@,
        show_config: TSP_SHOW_CONFIG,
        tree_sitter: default_tree_sitter(),
    }
}

/// `num_cpus::get`: the number of logical CPUs that this process may use. Its
/// documentation promises that the number is at least one, and no more than
/// that is claimed here.
#[verifier::external_body]
fn available_cpus() -> (n: usize)
    ensures
        n >= 1,
{
    num_cpus::get()
}

impl Default for ConfigCommand {
    fn default() -> (r: Self)
        ensures
            r == ConfigCommand::Current,
    {
        ConfigCommand::Current
    }
}

impl ConfigCommand {
    /// The name of the command as it is shown in messages: its lower-case
    /// name between double quotes.
    pub fn to_text(&self) -> (r: String)
        ensures
            r@ == match *self {
                ConfigCommand::Current => "\"current\""@,
                ConfigCommand::Default => "\"default\""@,
            },
    {
        match self {
            ConfigCommand::Current => owned("\"current\""),
            ConfigCommand::Default => owned("\"default\""),
        }
    }
}

impl Default for TreeSitter {
    fn default() -> (r: Self)
        ensures
            r.deep_view() == default_tree_sitter(),
    {
        TreeSitter {
            version: owned(TREE_SITTER_VERSION),
            repo: owned(TREE_SITTER_REPO),
            platform: owned(TREE_SITTER_PLATFORM),
        }
    }
}

impl TreeSitter {
    /// A copy of this toolchain description.
    pub fn duplicate(&self) -> (r: Self)
        ensures
            r.deep_view() == self.deep_view(),
    {
        TreeSitter {
            version: self.version.clone(),
            repo: self.repo.clone(),
            platform: self.platform.clone(),
        }
    }
}

impl ParserConfig {
    /// A copy of these coordinates.
    pub fn duplicate(&self) -> (r: Self)
        ensures
            r.deep_view() == self.deep_view(),
    {
        match self {
            ParserConfig::Full { git_ref, from, parsers } => {
                let from_copy = match from {
                    Some(f) => Some(f.clone()),
                    None => None,
                };
                let parsers_copy = match parsers {
                    Some(p) => Some(clone_strings(p)),
                    None => None,
                };
                ParserConfig::Full {
                    git_ref: git_ref.clone(),
                    from: from_copy,
                    parsers: parsers_copy,
                }
            },
            ParserConfig::Ref(git_ref) => ParserConfig::Ref(git_ref.clone()),
        }
    }
}

/// A copy of an association list of source coordinates.
pub fn clone_parsers(entries: &Vec<(String, ParserConfig)>) -> (r: Vec<(String, ParserConfig)>)
    ensures
        r.deep_view() == entries.deep_view(),
{
    let mut r: Vec<(String, ParserConfig)> = Vec::new();
    let mut i: usize = 0;
    while i < entries.len()
        invariant
            i <= entries.len(),
            r.len() == i,
            forall|k: int| 0 <= k < i ==> r[k].deep_view() == entries[k].deep_view(),
        decreases entries.len() - i,
    {
        let name = entries[i].0.clone();
        let config = entries[i].1.duplicate();
        r.push((name, config));
        i += 1;
    }
    assert(r.deep_view() =~= entries.deep_view());
    r
}

impl BuildCommand {
    /// The configuration that holds when nothing else is configured, for a
    /// given number of workers.
    pub fn with_jobs(jobs: usize) -> (r: Self)
        ensures
            r.deep_view() == default_build(jobs),
    {
        BuildCommand {
            languages: None,
            parsers: None,
            build_dir: owned(TSP_BUILD_DIR),
            build_static: TSP_STATIC,
            jobs,
            fresh: TSP_FRESH,
            out: owned(TSP_OUT),
            show_config: TSP_SHOW_CONFIG,
            tree_sitter: TreeSitter::default(),
        }
    }

    /// Whether the configuration has at least one worker and names no
    /// target twice among its configured targets.
    pub fn is_well_formed(&self) -> (r: bool)
        ensures
            r == well_formed(self.deep_view()),
    {
        self.jobs >= 1 && self.is_named_once()
    }

    /// Whether the configuration names no target twice among its configured targets.
    pub fn is_named_once(&self) -> (r: bool)
        ensures
            r == named_once(self.deep_view()),
    {
        match &self.parsers {
            None => true,
            Some(entries) => {
                let ghost all = entries.deep_view();
                let mut j: usize = 0;
                while j < entries.len()
                    invariant
                        j <= entries.len(),
                        all == entries.deep_view(),
                        self.deep_view().parsers == Some(all),
                        forall|a: int, b: int|
                            0 <= a < b < j ==> (#[trigger] all[a]).0 != (#[trigger] all[b]).0,
                    decreases entries.len() - j,
                {
                    let mut i: usize = 0;
                    while i < j
                        invariant
                            i <= j < entries.len(),
                            all == entries.deep_view(),
                            self.deep_view().parsers == Some(all),
                            forall|a: int| 0 <= a < i ==> (#[trigger] all[a]).0 != all[j as int].0,
                        decreases j - i,
                    {
                        if crate::text::same(entries[i].0.as_str(), entries[j].0.as_str()) {
                            assert(all[i as int].0 == all[j as int].0);
                            return false;
                        }
                        i += 1;
                    }
                    j += 1;
                }
                true
            },
        }
    }

    /// A copy of this configuration.
    pub fn duplicate(&self) -> (r: Self)
        ensures
            r.deep_view() == self.deep_view(),
    {
        let languages = match &self.languages {
            Some(l) => Some(clone_strings(l)),
            None => None,
        };
        let parsers = match &self.parsers {
            Some(p) => Some(clone_parsers(p)),
            None => None,
        };
        BuildCommand {
            languages,
            parsers,
            build_dir: self.build_dir.clone(),
            build_static: self.build_static,
            jobs: self.jobs,
            fresh: self.fresh,
            out: self.out.clone(),
            show_config: self.show_config,
            tree_sitter: self.tree_sitter.duplicate(),
        }
    }
}

impl Default for BuildCommand {
    /// The built-in configuration, with as many workers as the machine offers.
    fn default() -> (r: Self)
        ensures
            r.jobs >= 1,
            r.deep_view() == default_build(r.jobs),
    {
        BuildCommand::with_jobs(available_cpus())
    }
}

} // verus!
