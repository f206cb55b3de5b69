use vstd::prelude::*;

use crate::cli::{
    clone_parsers, BuildCommand, BuildCommandView, ParserConfig, ParserConfigView, TreeSitterView,
};
use crate::text::{clone_strings, same, same_optional, same_optional_strings, same_strings};

verus! {

/// Whether two source coordinates are written down alike.
pub fn same_parser_config(a: &ParserConfig, b: &ParserConfig) -> (r: bool)
    ensures
        r == (a.deep_view() == b.deep_view()),
{
    match (a, b) {
        (
            ParserConfig::Full { git_ref: r1, from: f1, parsers: p1 },
            ParserConfig::Full { git_ref: r2, from: f2, parsers: p2 },
        ) => {
            same(r1.as_str(), r2.as_str()) && same_optional(f1, f2) && same_optional_strings(
                p1,
                p2,
            )
        },
        (ParserConfig::Ref(r1), ParserConfig::Ref(r2)) => same(r1.as_str(), r2.as_str()),
        _ => false,
    }
}

/// Whether two association lists hold the same entries in the same order.
pub fn same_parsers(a: &Vec<(String, ParserConfig)>, b: &Vec<(String, ParserConfig)>) -> (r: bool)
    ensures
        r == (a.deep_view() == b.deep_view()),
{
    if a.len() != b.len() {
        assert(a.deep_view().len() != b.deep_view().len());
        return false;
    }
    let mut i: usize = 0;
    while i < a.len()
        invariant
            i <= a.len(),
            a.len() == b.len(),
            forall|k: int| 0 <= k < i ==> a[k].deep_view() == b[k].deep_view(),
        decreases a.len() - i,
    {
        let alike = same(a[i].0.as_str(), b[i].0.as_str()) && same_parser_config(&a[i].1, &b[i].1);
        if !alike {
            assert(a.deep_view()[i as int] != b.deep_view()[i as int]);
            return false;
        }
        i += 1;
    }
    assert(a.deep_view() =~= b.deep_view());
    true
}

/// The fields that a caller set, each with the caller's value. A field that
/// is absent here was not set by the caller; one that is present was, also
/// where its value is that of the defaults.
#[derive(Clone, Debug, PartialEq, Eq)]
pub struct OverrideSet {
    pub languages: Option<Option<Vec<String>>>,
    pub parsers: Option<Option<Vec<(String, ParserConfig)>>>,
    pub build_dir: Option<String>,
    pub build_static: Option<bool>,
    pub jobs: Option<usize>,
    pub fresh: Option<bool>,
    pub out: Option<String>,
    pub show_config: Option<bool>,
    pub version: Option<String>,
    pub repo: Option<String>,
    pub platform: Option<String>,
}

/// Mathematical value of an [`OverrideSet`].
pub struct OverrideSetView {
    pub languages: Option<Option<Seq<Seq<char>>>>,
    pub parsers: Option<Option<Seq<(Seq<char>, ParserConfigView)>>>,
    pub build_dir: Option<Seq<char>>,
    pub build_static: Option<bool>,
    pub jobs: Option<usize>,
    pub fresh: Option<bool>,
    pub out: Option<Seq<char>>,
    pub show_config: Option<bool>,
    pub version: Option<Seq<char>>,
    pub repo: Option<Seq<char>>,
    pub platform: Option<Seq<char>>,
}

impl DeepView for OverrideSet {
    type V = OverrideSetView;

    open spec fn deep_view(&self) -> OverrideSetView {
        OverrideSetView {
            languages: self.languages.deep_view(),
            parsers: self.parsers.deep_view(),
            build_dir: self.build_dir.deep_view(),
            build_static: self.build_static,
            jobs: self.jobs,
            fresh: self.fresh,
            out: self.out.deep_view(),
            show_config: self.show_config,
            version: self.version.deep_view(),
            repo: self.repo.deep_view(),
            platform: self.platform.deep_view(),
        }
    }
}

/// The set that holds no field.
pub open spec fn nothing_set() -> OverrideSetView {
    OverrideSetView {
        languages: None,
        parsers: None,
        build_dir: None,
        build_static: None,
        jobs: None,
        fresh: None,
        out: None,
        show_config: None,
        version: None,
        repo: None,
        platform: None,
    }
}

impl OverrideSet {
    /// What a caller sets who sets nothing.
    pub fn new() -> (r: OverrideSet)
        ensures
            r.deep_view() == nothing_set(),
    {
        OverrideSet {
            languages: None,
            parsers: None,
            build_dir: None,
            build_static: None,
            jobs: None,
            fresh: None,
            out: None,
            show_config: None,
            version: None,
            repo: None,
            platform: None,
        }
    }
}

/// Whether what the caller sets names no target twice among the configured targets.
pub open spec fn sets_names_once(overrides: OverrideSetView) -> bool {
    overrides.parsers matches Some(Some(entries)) ==> crate::cli::distinct_names(entries)
}

/// The caller's value where it departs from the built-in one.
pub open spec fn changed<T>(base: T, other: T) -> Option<T> {
    if base != other {
        Some(other)
    } else {
        None
    }
}

/// The override where there is one, else the value that was there.
pub open spec fn overridden<T>(current: T, change: Option<T>) -> T {
    match change {
        Some(value) => value,
        None => current,
    }
}

/// The fields of `command` that differ from those of `base`.
pub open spec fn diff_spec(base: BuildCommandView, command: BuildCommandView) -> OverrideSetView {
    OverrideSetView {
        languages: changed(base.languages, command.languages),
        parsers: changed(base.parsers, command.parsers),
        build_dir: changed(base.build_dir, command.build_dir),
        build_static: changed(base.build_static, command.build_static),
        jobs: changed(base.jobs, command.jobs),
        fresh: changed(base.fresh, command.fresh),
        out: changed(base.out, command.out),
        show_config: changed(base.show_config, command.show_config),
        version: changed(base.tree_sitter.version, command.tree_sitter.version),
        repo: changed(base.tree_sitter.repo, command.tree_sitter.repo),
        platform: changed(base.tree_sitter.platform, command.tree_sitter.platform),
    }
}

/// `config` with every field that `overrides` holds replaced by its value.
pub open spec fn apply_spec(config: BuildCommandView, overrides: OverrideSetView) -> BuildCommandView {
    BuildCommandView {
        languages: overridden(config.languages, overrides.languages),
        parsers: overridden(config.parsers, overrides.parsers),
        build_dir: overridden(config.build_dir, overrides.build_dir),
        build_static: overridden(config.build_static, overrides.build_static),
        jobs: overridden(config.jobs, overrides.jobs),
        fresh: overridden(config.fresh, overrides.fresh),
        out: overridden(config.out, overrides.out),
        show_config: overridden(config.show_config, overrides.show_config),
        tree_sitter: TreeSitterView {
            version: overridden(config.tree_sitter.version, overrides.version),
            repo: overridden(config.tree_sitter.repo, overrides.repo),
            platform: overridden(config.tree_sitter.platform, overrides.platform),
        },
    }
}

/// `Diff::diff` of the `diff` crate on two booleans: the second where the two
/// differ, else nothing.
#[verifier::external_body]
fn diff_flag(base: &bool, other: &bool) -> (r: Option<bool>)
    ensures
        r == changed(*base, *other),
{
    diff::Diff::diff(base, other)
}

/// `Diff::apply` of the `diff` crate on a boolean: the target takes the
/// change's value where the change holds one, and stays as it is otherwise.
#[verifier::external_body]
fn apply_flag(target: &mut bool, change: &Option<bool>)
    ensures
        *final(target) == overridden(*old(target), *change),
{
    diff::Diff::apply(target, change)
}

/// `Diff::diff` of the `diff` crate on two strings: a copy of the second
/// where the two differ, else nothing.
#[verifier::external_body]
fn diff_text(base: &String, other: &String) -> (r: Option<String>)
    ensures
        r.deep_view() == changed(base@, other@),
{
    diff::Diff::diff(base, other)
}

/// `Diff::apply` of the `diff` crate on a string: the target becomes a copy
/// of the change's value where the change holds one, and stays as it is
/// otherwise.
#[verifier::external_body]
fn apply_text(target: &mut String, change: &Option<String>)
    ensures
        final(target)@ == overridden(old(target)@, change.deep_view()),
{
    diff::Diff::apply(target, change)
}

/// The fields of `command` that differ from those of `base`, each with the
/// value that `command` gives it: what a caller set, as far as two values
/// can tell. A field that a caller set to the value of `base` is not among
/// them; a caller who knows which fields were set builds the set field by
/// field.
///
/// The number of workers and the two collections are compared as wholes: an
/// override replaces the field, it is not added to it.
pub fn diff(base: &BuildCommand, command: &BuildCommand) -> (r: OverrideSet)
    ensures
        r.deep_view() == diff_spec(base.deep_view(), command.deep_view()),
{
    let languages = if same_optional_strings(&base.languages, &command.languages) {
        None
    } else {
        Some(
            match &command.languages {
                Some(l) => Some(clone_strings(l)),
                None => None,
            },
        )
    };
    let parsers = if same_optional_parsers(&base.parsers, &command.parsers) {
        None
    } else {
        Some(
            match &command.parsers {
                Some(p) => Some(clone_parsers(p)),
                None => None,
            },
        )
    };
    let jobs = if base.jobs != command.jobs {
        Some(command.jobs)
    } else {
        None
    };
    OverrideSet {
        languages,
        parsers,
        build_dir: diff_text(&base.build_dir, &command.build_dir),
        build_static: diff_flag(&base.build_static, &command.build_static),
        jobs,
        fresh: diff_flag(&base.fresh, &command.fresh),
        out: diff_text(&base.out, &command.out),
        show_config: diff_flag(&base.show_config, &command.show_config),
        version: diff_text(&base.tree_sitter.version, &command.tree_sitter.version),
        repo: diff_text(&base.tree_sitter.repo, &command.tree_sitter.repo),
        platform: diff_text(&base.tree_sitter.platform, &command.tree_sitter.platform),
    }
}

/// Whether two optional association lists are both absent or hold the same entries.
pub fn same_optional_parsers(
    a: &Option<Vec<(String, ParserConfig)>>,
    b: &Option<Vec<(String, ParserConfig)>>,
) -> (r: bool)
    ensures
        r == (a.deep_view() == b.deep_view()),
{
    match (a, b) {
        (Some(x), Some(y)) => same_parsers(x, y),
        (None, None) => true,
        _ => false,
    }
}

/// Overwrites in `config` every field that `overrides` holds, whatever the
/// field held before.
pub fn apply(config: &mut BuildCommand, overrides: &OverrideSet)
    ensures
        final(config).deep_view() == apply_spec(old(config).deep_view(), overrides.deep_view()),
{
    match &overrides.languages {
        Some(value) => {
            config.languages = match value {
                Some(l) => Some(clone_strings(l)),
                None => None,
            };
        },
        None => {},
    }
    match &overrides.parsers {
        Some(value) => {
            config.parsers = match value {
                Some(p) => Some(clone_parsers(p)),
                None => None,
            };
        },
        None => {},
    }
    match overrides.jobs {
        Some(value) => {
            config.jobs = value;
        },
        None => {},
    }
    apply_text(&mut config.build_dir, &overrides.build_dir);
    apply_flag(&mut config.build_static, &overrides.build_static);
    apply_flag(&mut config.fresh, &overrides.fresh);
    apply_text(&mut config.out, &overrides.out);
    apply_flag(&mut config.show_config, &overrides.show_config);
    apply_text(&mut config.tree_sitter.version, &overrides.version);
    apply_text(&mut config.tree_sitter.repo, &overrides.repo);
    apply_text(&mut config.tree_sitter.platform, &overrides.platform);
}

/// Precedence of the caller: in each field, what results from applying the
/// caller's departures from `base` onto `file` is the caller's value where it
/// departs from `base`, and the value of `file` where it does not.
pub proof fn lemma_override_precedence(
    base: BuildCommandView,
    file: BuildCommandView,
    command: BuildCommandView,
)
    ensures
        ({
            let r = apply_spec(file, diff_spec(base, command));
            &&& r.languages == if command.languages != base.languages {
                command.languages
            } else {
                file.languages
            }
            &&& r.parsers == if command.parsers != base.parsers {
                command.parsers
            } else {
                file.parsers
            }
            &&& r.build_dir == if command.build_dir != base.build_dir {
                command.build_dir
            } else {
                file.build_dir
            }
            &&& r.build_static == if command.build_static != base.build_static {
                command.build_static
            } else {
                file.build_static
            }
            &&& r.jobs == if command.jobs != base.jobs {
                command.jobs
            } else {
                file.jobs
            }
            &&& r.fresh == if command.fresh != base.fresh {
                command.fresh
            } else {
                file.fresh
            }
            &&& r.out == if command.out != base.out {
                command.out
            } else {
                file.out
            }
            &&& r.show_config == if command.show_config != base.show_config {
                command.show_config
            } else {
                file.show_config
            }
            &&& r.tree_sitter.version == if command.tree_sitter.version
                != base.tree_sitter.version {
                command.tree_sitter.version
            } else {
                file.tree_sitter.version
            }
            &&& r.tree_sitter.repo == if command.tree_sitter.repo != base.tree_sitter.repo {
                command.tree_sitter.repo
            } else {
                file.tree_sitter.repo
            }
            &&& r.tree_sitter.platform == if command.tree_sitter.platform
                != base.tree_sitter.platform {
                command.tree_sitter.platform
            } else {
                file.tree_sitter.platform
            }
        }),
{
}

/// A caller that sets nothing changes nothing: applying the departures of
/// `base` from itself leaves any configuration as it is.
pub proof fn lemma_no_override_keeps_file(base: BuildCommandView, file: BuildCommandView)
    ensures
        apply_spec(file, diff_spec(base, base)) == file,
{
}

/// Where the file sets nothing, the caller's configuration comes out whole:
/// applying the departures of `command` from `base` onto `base` gives `command`.
pub proof fn lemma_override_onto_base(base: BuildCommandView, command: BuildCommandView)
    ensures
        apply_spec(base, diff_spec(base, command)) == command,
{
}

} // verus!
