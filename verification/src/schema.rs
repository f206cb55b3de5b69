use vstd::prelude::*;

use crate::cli::{
    BuildCommand, BuildCommandView, ParserConfig, ParserConfigView, TreeSitter, TreeSitterView,
};
use crate::cli::{distinct_names, named_once};
use crate::document::{
    distinct_keys, lemma_list_view, lemma_lookup_is_entry, lemma_table_view, lookup, well_keyed,
    Node, NodeView,
};
use crate::text::owned;

verus! {

pub const KEY_PARSERS: &'static str = "parsers";

pub const KEY_BUILD_DIR: &'static str = "build-dir";

pub const KEY_STATIC: &'static str = "static";

pub const KEY_JOBS: &'static str = "jobs";

pub const KEY_FRESH: &'static str = "fresh";

pub const KEY_OUT: &'static str = "out";

pub const KEY_SHOW_CONFIG: &'static str = "show-config";

pub const KEY_TREE_SITTER: &'static str = "tree-sitter";

pub const KEY_VERSION: &'static str = "version";

pub const KEY_REPO: &'static str = "repo";

pub const KEY_PLATFORM: &'static str = "platform";

pub const KEY_REF: &'static str = "ref";

pub const KEY_FROM: &'static str = "from";

/// Why a configuration document is refused.
#[derive(Clone, Debug, PartialEq, Eq)]
pub enum ConfigError {
    /// The text is not TOML; the parser's message.
    Syntax(String),
    /// The document is not a table.
    NotATable,
    /// The value under this top-level key is not of the kind that the field takes.
    Field(String),
    /// The number of workers is zero, or too large to be written down.
    JobsOutOfRange,
    /// A target is configured twice.
    RepeatedTarget,
    /// The document cannot be written as TOML.
    Unwritable,
}

/// Mathematical value of a [`ConfigError`].
pub enum ConfigErrorView {
    Syntax(Seq<char>),
    NotATable,
    Field(Seq<char>),
    JobsOutOfRange,
    RepeatedTarget,
    Unwritable,
}

impl DeepView for ConfigError {
    type V = ConfigErrorView;

    open spec fn deep_view(&self) -> ConfigErrorView {
        match self {
            ConfigError::Syntax(message) => ConfigErrorView::Syntax(message@),
            ConfigError::NotATable => ConfigErrorView::NotATable,
            ConfigError::Field(key) => ConfigErrorView::Field(key@),
            ConfigError::JobsOutOfRange => ConfigErrorView::JobsOutOfRange,
            ConfigError::RepeatedTarget => ConfigErrorView::RepeatedTarget,
            ConfigError::Unwritable => ConfigErrorView::Unwritable,
        }
    }
}

/// The line of text for an error.
pub open spec fn error_text(error: ConfigErrorView) -> Seq<char> {
    match error {
        ConfigErrorView::Syntax(message) => "Malformed configuration: "@ + message,
        ConfigErrorView::NotATable => "Malformed configuration: not a table"@,
        ConfigErrorView::Field(key) => "Malformed configuration: unexpected value for "@ + key,
        ConfigErrorView::JobsOutOfRange => "The number of jobs is out of range"@,
        ConfigErrorView::RepeatedTarget => "A parser is configured twice"@,
        ConfigErrorView::Unwritable => "The configuration cannot be written as TOML"@,
    }
}

impl ConfigError {
    /// The error as the innermost cause of a failure of the run.
    pub fn to_failure(&self) -> (r: crate::sh::Failure)
        ensures
            r.deep_view() == (crate::sh::FailureView {
                kind: crate::sh::ErrorKind::ConfigParse,
                chain: seq![error_text(self.deep_view())],
            }),
    {
        crate::sh::Failure::new(crate::sh::ErrorKind::ConfigParse, self.to_text())
    }

    /// The error as a line of text.
    pub fn to_text(&self) -> (r: String)
        ensures
            r@ == error_text(self.deep_view()),
    {
        match self {
            ConfigError::Syntax(message) => crate::text::concat(
                "Malformed configuration: ",
                message.as_str(),
            ),
            ConfigError::NotATable => owned("Malformed configuration: not a table"),
            ConfigError::Field(key) => crate::text::concat(
                "Malformed configuration: unexpected value for ",
                key.as_str(),
            ),
            ConfigError::JobsOutOfRange => owned("The number of jobs is out of range"),
            ConfigError::RepeatedTarget => owned("A parser is configured twice"),
            ConfigError::Unwritable => owned("The configuration cannot be written as TOML"),
        }
    }
}

/// The string under `key`, or `default` where the key is absent; nothing
/// where the key holds something else than a string.
pub open spec fn text_at(
    entries: Seq<(Seq<char>, NodeView)>,
    key: Seq<char>,
    default: Seq<char>,
) -> Option<Seq<char>> {
    match lookup(entries, key) {
        None => Some(default),
        Some(NodeView::Str(s)) => Some(s),
        Some(_) => None,
    }
}

/// The boolean under `key`, or `default` where the key is absent; nothing
/// where the key holds something else than a boolean.
pub open spec fn flag_at(entries: Seq<(Seq<char>, NodeView)>, key: Seq<char>, default: bool) -> Option<
    bool,
> {
    match lookup(entries, key) {
        None => Some(default),
        Some(NodeView::Bool(b)) => Some(b),
        Some(_) => None,
    }
}

/// The count under `key`, or `default` where the key is absent; nothing
/// where the key holds something else than an integer that a count of at
/// least one can be.
pub open spec fn count_at(
    entries: Seq<(Seq<char>, NodeView)>,
    key: Seq<char>,
    default: usize,
) -> Option<usize> {
    match lookup(entries, key) {
        None => Some(default),
        Some(NodeView::Int(i)) => if 1 <= i <= usize::MAX {
            Some(i as usize)
        } else {
            None
        },
        Some(_) => None,
    }
}

/// The strings of a list, where every item of it is a string.
pub open spec fn strings_of(items: Seq<NodeView>) -> Option<Seq<Seq<char>>> {
    if forall|i: int| 0 <= i < items.len() ==> (#[trigger] items[i]) is Str {
        Some(Seq::new(items.len(), |i: int| items[i]->Str_0))
    } else {
        None
    }
}

/// The optional string under `key`; nothing where the key holds something
/// else than a string.
pub open spec fn optional_text_at(entries: Seq<(Seq<char>, NodeView)>, key: Seq<char>) -> Option<
    Option<Seq<char>>,
> {
    match lookup(entries, key) {
        None => Some(None),
        Some(NodeView::Str(s)) => Some(Some(s)),
        Some(_) => None,
    }
}

/// The optional list of strings under `key`; nothing where the key holds
/// something else than a list of strings.
pub open spec fn optional_strings_at(
    entries: Seq<(Seq<char>, NodeView)>,
    key: Seq<char>,
) -> Option<Option<Seq<Seq<char>>>> {
    match lookup(entries, key) {
        None => Some(None),
        Some(NodeView::List(items)) => match strings_of(items) {
            Some(strings) => Some(Some(strings)),
            None => None,
        },
        Some(_) => None,
    }
}

/// The source coordinates that a value writes down: a string is a bare ref;
/// a table with a string under `ref` is a full record, whose `from` and
/// `parsers` are optional. Anything else writes down none.
pub open spec fn coordinates_of(node: NodeView) -> Option<ParserConfigView> {
    match node {
        NodeView::Str(git_ref) => Some(ParserConfigView::Ref(git_ref)),
        NodeView::Table(entries) => match (
            lookup(entries, KEY_REF@),
            optional_text_at(entries, KEY_FROM@),
            optional_strings_at(entries, KEY_PARSERS@),
        ) {
            (Some(NodeView::Str(git_ref)), Some(from), Some(parsers)) => Some(
                ParserConfigView::Full { git_ref, from, parsers },
            ),
            _ => None,
        },
        _ => None,
    }
}

/// The source coordinates of every entry of a table, in the table's order,
/// where each entry writes some down.
pub open spec fn coordinates_table(entries: Seq<(Seq<char>, NodeView)>) -> Option<
    Seq<(Seq<char>, ParserConfigView)>,
> {
    if forall|i: int| 0 <= i < entries.len() ==> coordinates_of((#[trigger] entries[i]).1) is Some {
        Some(Seq::new(entries.len(), |i: int| (entries[i].0, coordinates_of(entries[i].1)->0)))
    } else {
        None
    }
}

/// The configured targets under `parsers`, or `default` where the key is absent.
pub open spec fn parsers_at(
    entries: Seq<(Seq<char>, NodeView)>,
    default: Option<Seq<(Seq<char>, ParserConfigView)>>,
) -> Option<Option<Seq<(Seq<char>, ParserConfigView)>>> {
    match lookup(entries, KEY_PARSERS@) {
        None => Some(default),
        Some(NodeView::Table(targets)) => match coordinates_table(targets) {
            Some(table) => Some(Some(table)),
            None => None,
        },
        Some(_) => None,
    }
}

/// The toolchain under `tree-sitter`, each of its fields from `default` where
/// the table lacks it; `default` where the key is absent.
pub open spec fn tree_sitter_at(entries: Seq<(Seq<char>, NodeView)>, default: TreeSitterView) -> Option<
    TreeSitterView,
> {
    match lookup(entries, KEY_TREE_SITTER@) {
        None => Some(default),
        Some(NodeView::Table(fields)) => match (
            text_at(fields, KEY_VERSION@, default.version),
            text_at(fields, KEY_REPO@, default.repo),
            text_at(fields, KEY_PLATFORM@, default.platform),
        ) {
            (Some(version), Some(repo), Some(platform)) => Some(
                TreeSitterView { version, repo, platform },
            ),
            _ => None,
        },
        Some(_) => None,
    }
}

/// The configuration that a document stands for over `default`: every field
/// that the document holds, and `default` in every other. The requested
/// targets are never read from a document. The first field, in the order of
/// the record, whose value is of the wrong kind is the error.
pub open spec fn decode_spec(document: NodeView, default: BuildCommandView) -> Result<
    BuildCommandView,
    ConfigErrorView,
> {
    match document {
        NodeView::Table(entries) => {
            if parsers_at(entries, default.parsers) is None {
                Err(ConfigErrorView::Field(KEY_PARSERS@))
            } else if text_at(entries, KEY_BUILD_DIR@, default.build_dir) is None {
                Err(ConfigErrorView::Field(KEY_BUILD_DIR@))
            } else if flag_at(entries, KEY_STATIC@, default.build_static) is None {
                Err(ConfigErrorView::Field(KEY_STATIC@))
            } else if count_at(entries, KEY_JOBS@, default.jobs) is None {
                Err(ConfigErrorView::Field(KEY_JOBS@))
            } else if flag_at(entries, KEY_FRESH@, default.fresh) is None {
                Err(ConfigErrorView::Field(KEY_FRESH@))
            } else if text_at(entries, KEY_OUT@, default.out) is None {
                Err(ConfigErrorView::Field(KEY_OUT@))
            } else if flag_at(entries, KEY_SHOW_CONFIG@, default.show_config) is None {
                Err(ConfigErrorView::Field(KEY_SHOW_CONFIG@))
            } else if tree_sitter_at(entries, default.tree_sitter) is None {
                Err(ConfigErrorView::Field(KEY_TREE_SITTER@))
            } else {
                Ok(
                    BuildCommandView {
                        languages: default.languages,
                        parsers: parsers_at(entries, default.parsers)->0,
                        build_dir: text_at(entries, KEY_BUILD_DIR@, default.build_dir)->0,
                        build_static: flag_at(entries, KEY_STATIC@, default.build_static)->0,
                        jobs: count_at(entries, KEY_JOBS@, default.jobs)->0,
                        fresh: flag_at(entries, KEY_FRESH@, default.fresh)->0,
                        out: text_at(entries, KEY_OUT@, default.out)->0,
                        show_config: flag_at(entries, KEY_SHOW_CONFIG@, default.show_config)->0,
                        tree_sitter: tree_sitter_at(entries, default.tree_sitter)->0,
                    },
                )
            }
        },
        _ => Err(ConfigErrorView::NotATable),
    }
}

fn read_text(table: &Node, key: &str, default: &String) -> (r: Option<String>)
    requires
        table@ is Table,
    ensures
        r.deep_view() == text_at(table.entries(), key@, default@),
{
    match table.get(key) {
        None => Some(default.clone()),
        Some(Node::Str(s)) => Some(s.clone()),
        Some(_) => None,
    }
}

fn read_flag(table: &Node, key: &str, default: bool) -> (r: Option<bool>)
    requires
        table@ is Table,
    ensures
        r == flag_at(table.entries(), key@, default),
{
    match table.get(key) {
        None => Some(default),
        Some(Node::Bool(b)) => Some(*b),
        Some(_) => None,
    }
}

fn read_count(table: &Node, key: &str, default: usize) -> (r: Option<usize>)
    requires
        table@ is Table,
    ensures
        r == count_at(table.entries(), key@, default),
{
    match table.get(key) {
        None => Some(default),
        Some(Node::Int(i)) => {
            let value: i64 = *i;
            if value >= 1 && value as u64 <= usize::MAX as u64 {
                Some(value as usize)
            } else {
                None
            }
        },
        Some(_) => None,
    }
}

fn read_strings(node: &Node) -> (r: Option<Vec<String>>)
    requires
        node@ is List,
    ensures
        r.deep_view() == strings_of(node@->List_0),
{
    match node {
        Node::List(items) => {
            proof {
                lemma_list_view(*items);
            }
            let ghost all = node@->List_0;
            let mut strings: Vec<String> = Vec::new();
            let mut i: usize = 0;
            while i < items.len()
                invariant
                    i <= items.len(),
                    all == node@->List_0,
                    all.len() == items.len(),
                    forall|k: int| 0 <= k < items.len() ==> all[k] == items[k]@,
                    strings.len() == i,
                    forall|k: int|
                        0 <= k < i ==> (#[trigger] all[k]) is Str && strings[k]@ == all[k]->Str_0,
                decreases items.len() - i,
            {
                match &items[i] {
                    Node::Str(s) => {
                        strings.push(s.clone());
                    },
                    _ => {
                        assert(!(all[i as int] is Str));
                        return None;
                    },
                }
                i += 1;
            }
            assert(strings.deep_view() =~= strings_of(all)->0);
            Some(strings)
        },
        _ => None,
    }
}

fn read_optional_text(table: &Node, key: &str) -> (r: Option<Option<String>>)
    requires
        table@ is Table,
    ensures
        r.deep_view() == optional_text_at(table.entries(), key@),
{
    match table.get(key) {
        None => Some(None),
        Some(Node::Str(s)) => Some(Some(s.clone())),
        Some(_) => None,
    }
}

fn read_optional_strings(table: &Node, key: &str) -> (r: Option<Option<Vec<String>>>)
    requires
        table@ is Table,
    ensures
        r.deep_view() == optional_strings_at(table.entries(), key@),
{
    match table.get(key) {
        None => Some(None),
        Some(node) => match node {
            Node::List(_) => match read_strings(node) {
                Some(strings) => Some(Some(strings)),
                None => None,
            },
            _ => None,
        },
    }
}

/// The source coordinates that a value writes down, if it writes some down.
pub fn read_coordinates(node: &Node) -> (r: Option<ParserConfig>)
    ensures
        r.deep_view() == coordinates_of(node@),
{
    match node {
        Node::Str(git_ref) => Some(ParserConfig::Ref(git_ref.clone())),
        Node::Table(_) => {
            let git_ref = match node.get(KEY_REF) {
                Some(Node::Str(s)) => s.clone(),
                _ => {
                    return None;
                },
            };
            let from = match read_optional_text(node, KEY_FROM) {
                Some(from) => from,
                None => {
                    return None;
                },
            };
            let parsers = match read_optional_strings(node, KEY_PARSERS) {
                Some(parsers) => parsers,
                None => {
                    return None;
                },
            };
            Some(ParserConfig::Full { git_ref, from, parsers })
        },
        _ => None,
    }
}

fn read_coordinates_table(node: &Node) -> (r: Option<Vec<(String, ParserConfig)>>)
    requires
        node@ is Table,
    ensures
        r.deep_view() == coordinates_table(node.entries()),
{
    match node {
        Node::Table(entries) => {
            proof {
                lemma_table_view(*entries);
            }
            let ghost all = node.entries();
            let mut table: Vec<(String, ParserConfig)> = Vec::new();
            let mut i: usize = 0;
            while i < entries.len()
                invariant
                    i <= entries.len(),
                    all == node.entries(),
                    all.len() == entries.len(),
                    forall|k: int|
                        0 <= k < entries.len() ==> (#[trigger] all[k]) == (
                            entries[k].0@,
                            entries[k].1@,
                        ),
                    table.len() == i,
                    forall|k: int|
                        0 <= k < i ==> coordinates_of((#[trigger] all[k]).1) is Some
                            && table[k].0@ == all[k].0 && table[k].1.deep_view()
                            == coordinates_of(all[k].1)->0,
                decreases entries.len() - i,
            {
                match read_coordinates(&entries[i].1) {
                    Some(config) => {
                        assert(all[i as int] == (entries[i as int].0@, entries[i as int].1@));
                        table.push((entries[i].0.clone(), config));
                    },
                    None => {
                        assert(coordinates_of(all[i as int].1) is None);
                        return None;
                    },
                }
                i += 1;
            }
            assert forall|k: int| 0 <= k < table.len() implies #[trigger] table.deep_view()[k]
                == coordinates_table(all)->0[k] by {
                assert(all[k].0 == table[k].0@);
            }
            assert(table.deep_view() =~= coordinates_table(all)->0);
            Some(table)
        },
        _ => None,
    }
}

fn read_parsers(table: &Node, default: &Option<Vec<(String, ParserConfig)>>) -> (r: Option<
    Option<Vec<(String, ParserConfig)>>,
>)
    requires
        table@ is Table,
    ensures
        r.deep_view() == parsers_at(table.entries(), default.deep_view()),
{
    match table.get(KEY_PARSERS) {
        None => Some(
            match default {
                Some(p) => Some(crate::cli::clone_parsers(p)),
                None => None,
            },
        ),
        Some(node) => match node {
            Node::Table(_) => match read_coordinates_table(node) {
                Some(targets) => Some(Some(targets)),
                None => None,
            },
            _ => None,
        },
    }
}

fn read_tree_sitter(table: &Node, default: &TreeSitter) -> (r: Option<TreeSitter>)
    requires
        table@ is Table,
    ensures
        r.deep_view() == tree_sitter_at(table.entries(), default.deep_view()),
{
    match table.get(KEY_TREE_SITTER) {
        None => Some(default.duplicate()),
        Some(node) => match node {
            Node::Table(_) => {
                let version = read_text(node, KEY_VERSION, &default.version);
                let repo = read_text(node, KEY_REPO, &default.repo);
                let platform = read_text(node, KEY_PLATFORM, &default.platform);
                match (version, repo, platform) {
                    (Some(version), Some(repo), Some(platform)) => Some(
                        TreeSitter { version, repo, platform },
                    ),
                    _ => None,
                }
            },
            _ => None,
        },
    }
}

/// The view of a result of [`decode`].
pub open spec fn outcome_view(r: Result<BuildCommand, ConfigError>) -> Result<
    BuildCommandView,
    ConfigErrorView,
> {
    match r {
        Ok(config) => Ok(config.deep_view()),
        Err(error) => Err(error.deep_view()),
    }
}

/// What is read from a document that holds no key twice, over defaults that
/// name no target twice, names no target twice; and its number of workers
/// is at least one where it comes from the document.
pub proof fn lemma_decode_is_well_formed(document: NodeView, default: BuildCommandView)
    requires
        well_keyed(document),
        named_once(default),
        decode_spec(document, default) is Ok,
    ensures
        named_once(decode_spec(document, default)->Ok_0),
        decode_spec(document, default)->Ok_0.jobs >= 1 || decode_spec(document, default)->Ok_0.jobs
            == default.jobs,
{
    let entries = document->Table_0;
    if lookup(entries, KEY_PARSERS@) is Some {
        lemma_lookup_is_entry(entries, KEY_PARSERS@);
        let k = choose|k: int|
            0 <= k < entries.len() && (#[trigger] entries[k]).0 == KEY_PARSERS@ && entries[k].1
                == lookup(entries, KEY_PARSERS@)->0;
        assert(well_keyed(entries[k].1));
        let targets = entries[k].1->Table_0;
        assert(distinct_keys(targets));
        let table = coordinates_table(targets)->0;
        assert forall|i: int, j: int| 0 <= i < j < table.len() implies (#[trigger] table[i]).0
            != (#[trigger] table[j]).0 by {
            assert(targets[i].0 != targets[j].0);
        }
    }
}

/// Reads a configuration from a document, over `default`.
pub fn decode(document: &Node, default: &BuildCommand) -> (r: Result<BuildCommand, ConfigError>)
    ensures
        outcome_view(r) == decode_spec(document@, default.deep_view()),
        well_keyed(document@) && named_once(default.deep_view()) ==> (r matches Ok(config)
            ==> named_once(config.deep_view())),
{
    proof {
        if well_keyed(document@) && named_once(default.deep_view()) && decode_spec(
            document@,
            default.deep_view(),
        ) is Ok {
            lemma_decode_is_well_formed(document@, default.deep_view());
        }
    }
    match document {
        Node::Table(_) => {},
        _ => {
            return Err(ConfigError::NotATable);
        },
    }
    let parsers = match read_parsers(document, &default.parsers) {
        Some(value) => value,
        None => {
            return Err(ConfigError::Field(owned(KEY_PARSERS)));
        },
    };
    let build_dir = match read_text(document, KEY_BUILD_DIR, &default.build_dir) {
        Some(value) => value,
        None => {
            return Err(ConfigError::Field(owned(KEY_BUILD_DIR)));
        },
    };
    let build_static = match read_flag(document, KEY_STATIC, default.build_static) {
        Some(value) => value,
        None => {
            return Err(ConfigError::Field(owned(KEY_STATIC)));
        },
    };
    let jobs = match read_count(document, KEY_JOBS, default.jobs) {
        Some(value) => value,
        None => {
            return Err(ConfigError::Field(owned(KEY_JOBS)));
        },
    };
    let fresh = match read_flag(document, KEY_FRESH, default.fresh) {
        Some(value) => value,
        None => {
            return Err(ConfigError::Field(owned(KEY_FRESH)));
        },
    };
    let out = match read_text(document, KEY_OUT, &default.out) {
        Some(value) => value,
        None => {
            return Err(ConfigError::Field(owned(KEY_OUT)));
        },
    };
    let show_config = match read_flag(document, KEY_SHOW_CONFIG, default.show_config) {
        Some(value) => value,
        None => {
            return Err(ConfigError::Field(owned(KEY_SHOW_CONFIG)));
        },
    };
    let tree_sitter = match read_tree_sitter(document, &default.tree_sitter) {
        Some(value) => value,
        None => {
            return Err(ConfigError::Field(owned(KEY_TREE_SITTER)));
        },
    };
    let languages = match &default.languages {
        Some(l) => Some(crate::text::clone_strings(l)),
        None => None,
    };
    Ok(
        BuildCommand {
            languages,
            parsers,
            build_dir,
            build_static,
            jobs,
            fresh,
            out,
            show_config,
            tree_sitter,
        },
    )
}

} // verus!
