use vstd::prelude::*;

use crate::cli::{
    default_build, named_once, well_formed, BuildCommand, BuildCommandView, ConfigCommand,
};
use crate::document::{
    empty_document, parse, render, toml_document, toml_text, well_keyed, Node, NodeView,
};
use crate::encoding::{document_of, encode, encode_spec};
use crate::overrides::{apply, apply_spec, overridden, sets_names_once, OverrideSet, OverrideSetView};
use crate::schema::{
    count_at, decode, decode_spec, flag_at, outcome_view, parsers_at, text_at, tree_sitter_at,
    ConfigError, ConfigErrorView, KEY_BUILD_DIR, KEY_FRESH, KEY_JOBS, KEY_OUT, KEY_SHOW_CONFIG,
    KEY_STATIC,
};
use crate::text::{indent_all, indented, join, joined, lines, lines_of, owned};

verus! {

/// A configuration with what the caller set over it, or the configuration
/// itself where there is no caller.
pub open spec fn overlaid(config: BuildCommandView, overrides: Option<OverrideSetView>) -> BuildCommandView {
    match overrides {
        Some(set) => apply_spec(config, set),
        None => config,
    }
}

/// The effective configuration: what `document` holds over `default`, and
/// over that every field that the caller set, whatever its value. A
/// configuration without a worker is refused.
pub open spec fn resolve_spec(
    document: NodeView,
    default: BuildCommandView,
    overrides: Option<OverrideSetView>,
) -> Result<BuildCommandView, ConfigErrorView> {
    match decode_spec(document, default) {
        Err(error) => Err(error),
        Ok(file) => if overlaid(file, overrides).jobs < 1 {
            Err(ConfigErrorView::Field(KEY_JOBS@))
        } else {
            Ok(overlaid(file, overrides))
        },
    }
}

/// The effective configuration for the text of a configuration file. A file
/// that is missing stands for the empty document; a text that is not TOML is
/// an error.
pub open spec fn resolve_text_spec(
    text: Option<Seq<char>>,
    default: BuildCommandView,
    overrides: Option<OverrideSetView>,
) -> Result<BuildCommandView, ConfigErrorView> {
    match text {
        None => resolve_spec(empty_document(), default, overrides),
        Some(t) => match toml_document(t) {
            Err(message) => Err(ConfigErrorView::Syntax(message)),
            Ok(document) => resolve_spec(document, default, overrides),
        },
    }
}

/// The TOML text of a configuration.
pub open spec fn serialize_spec(config: BuildCommandView) -> Result<Seq<char>, ConfigErrorView> {
    match encode_spec(config) {
        Err(error) => Err(error),
        Ok(document) => match toml_text(document) {
            Some(text) => Ok(text),
            None => Err(ConfigErrorView::Unwritable),
        },
    }
}

/// The view of a text or the error in its place.
pub open spec fn text_outcome_view(r: Result<String, ConfigError>) -> Result<
    Seq<char>,
    ConfigErrorView,
> {
    match r {
        Ok(text) => Ok(text@),
        Err(error) => Err(error.deep_view()),
    }
}

/// Merges a configuration document with the defaults and with what the
/// caller set: the document's fields go over `default`, and every field of
/// `overrides` goes over both, also where its value is the default's.
pub fn resolve_document(
    document: &Node,
    default: &BuildCommand,
    overrides: Option<&OverrideSet>,
) -> (r: Result<BuildCommand, ConfigError>)
    ensures
        outcome_view(r) == resolve_spec(document@, default.deep_view(), overrides.deep_view()),
        r matches Ok(config) ==> config.jobs >= 1,
        well_keyed(document@) && named_once(default.deep_view()) && (overrides matches Some(set)
            ==> sets_names_once(set.deep_view())) ==> (r matches Ok(config) ==> well_formed(
            config.deep_view(),
        )),
{
    match decode(document, default) {
        Err(error) => Err(error),
        Ok(file) => {
            let mut config = file;
            match overrides {
                Some(set) => {
                    apply(&mut config, set);
                },
                None => {},
            }
            if config.jobs < 1 {
                Err(ConfigError::Field(owned(KEY_JOBS)))
            } else {
                Ok(config)
            }
        },
    }
}

/// Merges the text of a configuration file, where there is a file, with the
/// defaults and with what the caller set.
pub fn resolve(text: Option<&str>, default: &BuildCommand, overrides: Option<&OverrideSet>) -> (r:
    Result<BuildCommand, ConfigError>)
    ensures
        outcome_view(r) == resolve_text_spec(
            text.deep_view(),
            default.deep_view(),
            overrides.deep_view(),
        ),
        r matches Ok(config) ==> config.jobs >= 1,
        named_once(default.deep_view()) && (overrides matches Some(set) ==> sets_names_once(
            set.deep_view(),
        )) ==> (r matches Ok(config) ==> well_formed(config.deep_view())),
{
    match text {
        None => {
            let entries: Vec<(String, Node)> = Vec::new();
            proof {
                crate::document::lemma_table_view(entries);
                assert(Node::Table(entries).entries() =~= Seq::empty());
                assert(well_keyed(Node::Table(entries)@));
            }
            let empty = Node::Table(entries);
            resolve_document(&empty, default, overrides)
        },
        Some(t) => match parse(t) {
            Err(message) => Err(ConfigError::Syntax(message)),
            Ok(document) => resolve_document(&document, default, overrides),
        },
    }
}

/// The effective configuration over the built-in defaults of this machine.
pub fn current(text: Option<&str>, overrides: Option<&OverrideSet>) -> (r: Result<
    BuildCommand,
    ConfigError,
>)
    ensures
        exists|jobs: usize|
            jobs >= 1 && outcome_view(r) == resolve_text_spec(
                text.deep_view(),
                #[trigger] default_build(jobs),
                overrides.deep_view(),
            ),
        r matches Ok(config) ==> config.jobs >= 1,
        (overrides matches Some(set) ==> sets_names_once(set.deep_view())) ==> (r matches Ok(
            config,
        ) ==> well_formed(config.deep_view())),
{
    let default = BuildCommand::default();
    resolve(text, &default, overrides)
}

/// Writes a configuration as TOML text.
pub fn serialize(config: &BuildCommand) -> (r: Result<String, ConfigError>)
    ensures
        text_outcome_view(r) == serialize_spec(config.deep_view()),
{
    match encode(config) {
        Err(error) => Err(error),
        Ok(document) => match render(&document) {
            Some(text) => Ok(text),
            None => Err(ConfigError::Unwritable),
        },
    }
}

/// What `config` shows for a command, over defaults with `jobs` workers: the
/// effective configuration, or the defaults themselves.
pub open spec fn run_spec(command: ConfigCommand, text: Option<Seq<char>>, jobs: usize) -> Result<
    Seq<char>,
    ConfigErrorView,
> {
    match command {
        ConfigCommand::Current => match resolve_text_spec(text, default_build(jobs), None) {
            Err(error) => Err(error),
            Ok(config) => serialize_spec(config),
        },
        ConfigCommand::Default => serialize_spec(default_build(jobs)),
    }
}

/// The text that a configuration command shows.
pub fn run(command: &ConfigCommand, text: Option<&str>) -> (r: Result<String, ConfigError>)
    ensures
        exists|jobs: usize|
            jobs >= 1 && text_outcome_view(r) == #[trigger] run_spec(
                *command,
                text.deep_view(),
                jobs,
            ),
{
    let default = BuildCommand::default();
    match command {
        ConfigCommand::Current => {
            match resolve(text, &default, None) {
                Err(error) => {
                    assert(text_outcome_view(Err(error)) == run_spec(
                        *command,
                        text.deep_view(),
                        default.jobs,
                    ));
                    Err(error)
                },
                Ok(config) => {
                    let r = serialize(&config);
                    assert(text_outcome_view(r) == run_spec(
                        *command,
                        text.deep_view(),
                        default.jobs,
                    ));
                    r
                },
            }
        },
        ConfigCommand::Default => {
            let r = serialize(&default);
            assert(text_outcome_view(r) == run_spec(*command, text.deep_view(), default.jobs));
            r
        },
    }
}

/// A text with `indent` before each of its lines.
pub fn print_indent(s: &str, indent: &str) -> (r: String)
    ensures
        r@ == indented(lines_of(s@), indent@),
{
    let all = lines(s);
    indent_all(&all, indent)
}

/// The requested targets in one line, with a blank between each two, where
/// targets are requested.
pub fn column_input(command: &BuildCommand) -> (r: Option<String>)
    ensures
        r.deep_view() == match command.deep_view().languages {
            Some(languages) => Some(joined(languages, " "@)),
            None => None,
        },
{
    match &command.languages {
        Some(languages) => Some(join(languages, " ")),
        None => None,
    }
}

/// The report of a configuration, given its TOML text and the requested
/// targets laid out in columns: which targets are built, then the
/// configuration behind two blanks.
pub open spec fn report_spec(
    languages: Option<Seq<Seq<char>>>,
    listing: Seq<char>,
    toml: Seq<char>,
) -> Seq<char> {
    (match languages {
        Some(_) => "Building the following languages:\n\n"@ + listing + "\n"@,
        None => "Building all languages.\n\n"@,
    }) + "Running with the following configuration:\n\n"@ + indented(lines_of(toml), "  "@)
        + "\n"@
}

/// The report that is shown before a build. `listing` holds the requested
/// targets laid out in columns, and is read only where targets are requested.
pub fn show_config(command: &BuildCommand, listing: &str) -> (r: Result<String, ConfigError>)
    ensures
        text_outcome_view(r) == match serialize_spec(command.deep_view()) {
            Err(error) => Err::<Seq<char>, ConfigErrorView>(error),
            Ok(toml) => Ok(report_spec(command.deep_view().languages, listing@, toml)),
        },
{
    let toml = match serialize(command) {
        Err(error) => {
            return Err(error);
        },
        Ok(toml) => toml,
    };
    let mut report = match &command.languages {
        Some(_) => {
            let mut head = owned("Building the following languages:\n\n");
            head.append(listing);
            head.append("\n");
            head
        },
        None => owned("Building all languages.\n\n"),
    };
    report.append("Running with the following configuration:\n\n");
    let body = print_indent(toml.as_str(), "  ");
    report.append(body.as_str());
    report.append("\n");
    Ok(report)
}

/// Precedence among the three sources: in each field the effective
/// configuration holds what the caller set, whatever its value, else what
/// the document holds for the field, else the default. The requested targets
/// are never read from a document.
pub proof fn lemma_precedence(
    document: NodeView,
    default: BuildCommandView,
    overrides: OverrideSetView,
)
    requires
        resolve_spec(document, default, Some(overrides)) is Ok,
    ensures
        ({
            let r = resolve_spec(document, default, Some(overrides))->Ok_0;
            let entries = document->Table_0;
            &&& document is Table
            &&& r.languages == overridden(default.languages, overrides.languages)
            &&& r.parsers == overridden(
                parsers_at(entries, default.parsers)->0,
                overrides.parsers,
            )
            &&& r.build_dir == overridden(
                text_at(entries, KEY_BUILD_DIR@, default.build_dir)->0,
                overrides.build_dir,
            )
            &&& r.build_static == overridden(
                flag_at(entries, KEY_STATIC@, default.build_static)->0,
                overrides.build_static,
            )
            &&& r.jobs == overridden(count_at(entries, KEY_JOBS@, default.jobs)->0, overrides.jobs)
            &&& r.fresh == overridden(
                flag_at(entries, KEY_FRESH@, default.fresh)->0,
                overrides.fresh,
            )
            &&& r.out == overridden(text_at(entries, KEY_OUT@, default.out)->0, overrides.out)
            &&& r.show_config == overridden(
                flag_at(entries, KEY_SHOW_CONFIG@, default.show_config)->0,
                overrides.show_config,
            )
            &&& r.tree_sitter.version == overridden(
                tree_sitter_at(entries, default.tree_sitter)->0.version,
                overrides.version,
            )
            &&& r.tree_sitter.repo == overridden(
                tree_sitter_at(entries, default.tree_sitter)->0.repo,
                overrides.repo,
            )
            &&& r.tree_sitter.platform == overridden(
                tree_sitter_at(entries, default.tree_sitter)->0.platform,
                overrides.platform,
            )
        }),
{
}

/// A field that the caller set to the very value of the default still goes
/// over what the document holds for it.
pub proof fn lemma_set_to_default_wins(
    document: NodeView,
    default: BuildCommandView,
    overrides: OverrideSetView,
)
    requires
        resolve_spec(document, default, Some(overrides)) is Ok,
    ensures
        ({
            let r = resolve_spec(document, default, Some(overrides))->Ok_0;
            &&& overrides.build_dir == Some(default.build_dir) ==> r.build_dir == default.build_dir
            &&& overrides.build_static == Some(default.build_static) ==> r.build_static
                == default.build_static
            &&& overrides.jobs == Some(default.jobs) ==> r.jobs == default.jobs
            &&& overrides.fresh == Some(default.fresh) ==> r.fresh == default.fresh
            &&& overrides.out == Some(default.out) ==> r.out == default.out
            &&& overrides.show_config == Some(default.show_config) ==> r.show_config
                == default.show_config
            &&& overrides.parsers == Some(default.parsers) ==> r.parsers == default.parsers
            &&& overrides.version == Some(default.tree_sitter.version) ==> r.tree_sitter.version
                == default.tree_sitter.version
            &&& overrides.repo == Some(default.tree_sitter.repo) ==> r.tree_sitter.repo
                == default.tree_sitter.repo
            &&& overrides.platform == Some(default.tree_sitter.platform)
                ==> r.tree_sitter.platform == default.tree_sitter.platform
        }),
{
}

/// Without a caller and without a document the effective configuration is
/// the defaults themselves, where they have a worker.
pub proof fn lemma_defaults_without_sources(default: BuildCommandView)
    requires
        default.jobs >= 1,
    ensures
        resolve_text_spec(None, default, None) == Ok::<BuildCommandView, ConfigErrorView>(default),
{
    let entries = Seq::<(Seq<char>, NodeView)>::empty();
    assert(empty_document()->Table_0 =~= entries);
    assert(forall|key: Seq<char>| crate::document::lookup(entries, key) is None);
}

/// Round trip through a document: a configuration that is written down and
/// resolved again over the defaults, with no caller, is the configuration
/// itself, provided that it can be written (at least one worker, their number
/// within a TOML integer, no target named twice) and that what a document
/// never holds is as in the defaults (the requested targets, and the absence
/// of configured targets).
pub proof fn lemma_resolve_round_trip(config: BuildCommandView, default: BuildCommandView)
    requires
        1 <= config.jobs <= i64::MAX,
        named_once(config),
        config.languages == default.languages,
        config.parsers is None ==> default.parsers is None,
    ensures
        encode_spec(config) == Ok::<NodeView, ConfigErrorView>(document_of(config)),
        resolve_spec(document_of(config), default, None) == Ok::<
            BuildCommandView,
            ConfigErrorView,
        >(config),
{
    crate::encoding::lemma_round_trip(config, default);
}

} // verus!
