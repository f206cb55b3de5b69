use vstd::prelude::*;

use crate::cli::{BuildCommand, BuildCommandView, ParserConfig, ParserConfigView};
use crate::consts::{TSP_FROM, TSP_REF};
use crate::text::{clone_strings, concat, contains, join_path, owned, path_join, same};

verus! {

/// The repository of a target for which none is configured.
pub open spec fn default_repo_spec(lang: Seq<char>) -> Seq<char> {
    TSP_FROM@ + lang
}

/// The first entry of an association list that has the given name.
pub open spec fn find_parser(entries: Seq<(Seq<char>, ParserConfigView)>, lang: Seq<char>) -> Option<
    ParserConfigView,
>
    decreases entries.len(),
{
    if entries.len() == 0 {
        None
    } else if entries[0].0 == lang {
        Some(entries[0].1)
    } else {
        find_parser(entries.drop_first(), lang)
    }
}

/// What is configured for a target, if anything is.
pub open spec fn configured(args: BuildCommandView, lang: Seq<char>) -> Option<ParserConfigView> {
    match args.parsers {
        Some(entries) => find_parser(entries, lang),
        None => None,
    }
}

/// The source coordinates of a target: its ref, its repository and its
/// sub-grammars. What is not configured is the default: the ref `HEAD`, the
/// repository of that name under the default base, and the target itself as
/// its one sub-grammar.
pub open spec fn coordinates_spec(args: BuildCommandView, lang: Seq<char>) -> (
    Seq<char>,
    Seq<char>,
    Seq<Seq<char>>,
) {
    match configured(args, lang) {
        Some(ParserConfigView::Ref(git_ref)) => (git_ref, default_repo_spec(lang), seq![lang]),
        Some(ParserConfigView::Full { git_ref, from, parsers }) => (
            git_ref,
            match from {
                Some(repo) => repo,
                None => default_repo_spec(lang),
            },
            match parsers {
                Some(names) => names,
                None => seq![lang],
            },
        ),
        None => (TSP_REF@, default_repo_spec(lang), seq![lang]),
    }
}

/// The repository of a target for which none is configured.
pub fn default_repo(lang: &str) -> (r: String)
    ensures
        r@ == default_repo_spec(lang@),
{
    concat(TSP_FROM, lang)
}

/// A search in an association list depends only on the entries from the first match on.
proof fn lemma_find_from(entries: Seq<(Seq<char>, ParserConfigView)>, lang: Seq<char>, from: int)
    requires
        0 <= from <= entries.len(),
        forall|k: int| 0 <= k < from ==> entries[k].0 != lang,
    ensures
        find_parser(entries, lang) == find_parser(
            entries.subrange(from, entries.len() as int),
            lang,
        ),
    decreases from,
{
    if from == 0 {
        assert(entries.subrange(0, entries.len() as int) =~= entries);
    } else {
        let rest = entries.drop_first();
        assert forall|k: int| 0 <= k < from - 1 implies rest[k].0 != lang by {
            assert(rest[k] == entries[k + 1]);
        }
        lemma_find_from(rest, lang, from - 1);
        assert(rest.subrange(from - 1, rest.len() as int) =~= entries.subrange(
            from,
            entries.len() as int,
        ));
    }
}

/// What is configured for a target, if anything is.
pub fn lookup_parser<'a>(args: &'a BuildCommand, lang: &str) -> (r: Option<&'a ParserConfig>)
    ensures
        r.deep_view() == configured(args.deep_view(), lang@),
{
    match &args.parsers {
        None => None,
        Some(entries) => {
            let ghost all = entries.deep_view();
            let mut i: usize = 0;
            while i < entries.len()
                invariant
                    i <= entries.len(),
                    all == entries.deep_view(),
                    args.deep_view().parsers == Some(all),
                    forall|k: int| 0 <= k < i ==> all[k].0 != lang@,
                decreases entries.len() - i,
            {
                if same(entries[i].0.as_str(), lang) {
                    proof {
                        lemma_find_from(all, lang@, i as int);
                        let tail = all.subrange(i as int, all.len() as int);
                        assert(tail[0] == all[i as int]);
                    }
                    return Some(&entries[i].1);
                }
                i += 1;
            }
            proof {
                lemma_find_from(all, lang@, all.len() as int);
                assert(all.subrange(all.len() as int, all.len() as int).len() == 0);
            }
            None
        },
    }
}

/// The source coordinates of a target: its ref, its repository and its sub-grammars.
pub fn parser_coordinates(args: &BuildCommand, lang: String) -> (r: (String, String, Vec<String>))
    ensures
        (r.0@, r.1@, r.2.deep_view()) == coordinates_spec(args.deep_view(), lang@),
{
    match lookup_parser(args, lang.as_str()) {
        Some(ParserConfig::Ref(git_ref)) => {
            let repo = default_repo(lang.as_str());
            let mut parsers: Vec<String> = Vec::new();
            parsers.push(lang);
            assert(parsers.deep_view() =~= seq![lang@]);
            (git_ref.clone(), repo, parsers)
        },
        Some(ParserConfig::Full { git_ref, from, parsers }) => {
            let repo = match from {
                Some(f) => f.clone(),
                None => default_repo(lang.as_str()),
            };
            let names = match parsers {
                Some(names) => clone_strings(names),
                None => {
                    let mut only: Vec<String> = Vec::new();
                    only.push(lang);
                    assert(only.deep_view() =~= seq![lang@]);
                    only
                },
            };
            (git_ref.clone(), repo, names)
        },
        None => {
            let repo = default_repo(lang.as_str());
            let mut parsers: Vec<String> = Vec::new();
            parsers.push(lang);
            assert(parsers.deep_view() =~= seq![lang@]);
            (owned(TSP_REF), repo, parsers)
        },
    }
}

/// The names of the configured targets, in their order.
pub open spec fn configured_names(args: BuildCommandView) -> Seq<Seq<char>> {
    match args.parsers {
        Some(entries) => Seq::new(entries.len(), |i: int| entries[i].0),
        None => Seq::empty(),
    }
}

/// The targets that a configuration asks for: those it requests, or every
/// configured target where it requests none.
pub open spec fn requested_spec(args: BuildCommandView) -> Seq<Seq<char>> {
    match args.languages {
        Some(names) => if names.len() > 0 {
            names
        } else {
            configured_names(args)
        },
        None => configured_names(args),
    }
}

/// A list of names without the names that occur earlier in it.
pub open spec fn without_repeats(names: Seq<Seq<char>>) -> Seq<Seq<char>>
    decreases names.len(),
{
    if names.len() == 0 {
        Seq::empty()
    } else {
        let init = without_repeats(names.drop_last());
        if init.contains(names.last()) {
            init
        } else {
            init.push(names.last())
        }
    }
}

/// The targets that are built: the requested targets, each once.
pub open spec fn targets_spec(args: BuildCommandView) -> Seq<Seq<char>> {
    without_repeats(requested_spec(args))
}

/// De-duplication: a list without its repeats holds no name twice, holds
/// every name of the list and no other, and is no longer than the list.
pub proof fn lemma_without_repeats(names: Seq<Seq<char>>)
    ensures
        without_repeats(names).no_duplicates(),
        forall|name: Seq<char>| without_repeats(names).contains(name) <==> names.contains(name),
        without_repeats(names).len() <= names.len(),
    decreases names.len(),
{
    if names.len() > 0 {
        let init_names = names.drop_last();
        let init = without_repeats(init_names);
        let last = names.last();
        lemma_without_repeats(init_names);
        let r = without_repeats(names);
        assert forall|name: Seq<char>| r.contains(name) <==> names.contains(name) by {
            if names.contains(name) {
                let i = choose|i: int| 0 <= i < names.len() && names[i] == name;
                if i < init_names.len() {
                    assert(init_names[i] == name);
                    assert(init_names.contains(name));
                    assert(init.contains(name));
                    let j = choose|j: int| 0 <= j < init.len() && init[j] == name;
                    assert(r[j] == name);
                } else {
                    assert(name == last);
                    if !init.contains(last) {
                        assert(r[init.len() as int] == last);
                    }
                }
            }
            if r.contains(name) {
                let j = choose|j: int| 0 <= j < r.len() && r[j] == name;
                if j < init.len() {
                    assert(init[j] == name);
                    assert(init.contains(name));
                    assert(init_names.contains(name));
                    let i = choose|i: int| 0 <= i < init_names.len() && init_names[i] == name;
                    assert(names[i] == name);
                } else {
                    assert(name == last);
                    assert(names[names.len() - 1] == name);
                }
            }
        }
    }
}

/// The targets that are built: the requested targets, or every configured
/// target where none is requested, each once, in the order in which they
/// first occur.
pub fn requested_languages(command: &BuildCommand) -> (r: Vec<String>)
    ensures
        r.deep_view() == targets_spec(command.deep_view()),
        r.deep_view().no_duplicates(),
        forall|name: Seq<char>|
            r.deep_view().contains(name) <==> requested_spec(command.deep_view()).contains(name),
{
    let mut requested: Vec<String> = Vec::new();
    let explicit = match &command.languages {
        Some(names) => names.len() > 0,
        None => false,
    };
    if explicit {
        match &command.languages {
            Some(names) => {
                requested = clone_strings(names);
            },
            None => {},
        }
    } else {
        match &command.parsers {
            Some(entries) => {
                let mut i: usize = 0;
                while i < entries.len()
                    invariant
                        i <= entries.len(),
                        requested.len() == i,
                        forall|k: int| 0 <= k < i ==> (#[trigger] requested[k])@ == entries[k].0@,
                    decreases entries.len() - i,
                {
                    requested.push(entries[i].0.clone());
                    i += 1;
                }
                assert(requested.deep_view() =~= configured_names(command.deep_view()));
            },
            None => {
                assert(requested.deep_view() =~= configured_names(command.deep_view()));
            },
        }
    }
    assert(requested.deep_view() == requested_spec(command.deep_view()));
    let mut targets: Vec<String> = Vec::new();
    let mut i: usize = 0;
    proof {
        assert(requested.deep_view().take(0) =~= Seq::<Seq<char>>::empty());
        assert(targets.deep_view() =~= Seq::<Seq<char>>::empty());
    }
    while i < requested.len()
        invariant
            i <= requested.len(),
            targets.deep_view() == without_repeats(requested.deep_view().take(i as int)),
        decreases requested.len() - i,
    {
        proof {
            let next = requested.deep_view().take(i + 1);
            assert(next.drop_last() =~= requested.deep_view().take(i as int));
            assert(next.last() == requested[i as int]@);
        }
        if !contains(&targets, requested[i].as_str()) {
            let ghost before = targets.deep_view();
            targets.push(requested[i].clone());
            assert(targets.deep_view() =~= before.push(requested[i as int]@));
        }
        i += 1;
    }
    proof {
        assert(requested.deep_view().take(requested.len() as int) =~= requested.deep_view());
        lemma_without_repeats(requested.deep_view());
    }
    targets
}

/// The work for one target: what to fetch, and where to.
#[derive(Clone, Debug, PartialEq, Eq)]
pub struct BuildTask {
    /// The name of the target.
    pub name: String,
    /// The ref to fetch.
    pub git_ref: String,
    /// The repository to fetch from.
    pub repo: String,
    /// The sub-grammars to build.
    pub parsers: Vec<String>,
    /// The directory of the target below the build directory.
    pub dir: String,
}

/// Mathematical value of a [`BuildTask`].
pub struct BuildTaskView {
    pub name: Seq<char>,
    pub git_ref: Seq<char>,
    pub repo: Seq<char>,
    pub parsers: Seq<Seq<char>>,
    pub dir: Seq<char>,
}

impl DeepView for BuildTask {
    type V = BuildTaskView;

    open spec fn deep_view(&self) -> BuildTaskView {
        BuildTaskView {
            name: self.name@,
            git_ref: self.git_ref@,
            repo: self.repo@,
            parsers: self.parsers.deep_view(),
            dir: self.dir@,
        }
    }
}

/// The task of a target: its source coordinates, and its directory of its
/// own name below the build directory.
pub open spec fn task_spec(args: BuildCommandView, name: Seq<char>) -> BuildTaskView {
    let coordinates = coordinates_spec(args, name);
    BuildTaskView {
        name,
        git_ref: coordinates.0,
        repo: coordinates.1,
        parsers: coordinates.2,
        dir: path_join(args.build_dir, name),
    }
}

/// The tasks of a configuration: one for each target that is built.
pub open spec fn tasks_spec(args: BuildCommandView) -> Seq<BuildTaskView> {
    let targets = targets_spec(args);
    Seq::new(targets.len(), |i: int| task_spec(args, targets[i]))
}

impl BuildTask {
    /// The task of a target.
    pub fn new(args: &BuildCommand, name: &str) -> (r: BuildTask)
        ensures
            r.deep_view() == task_spec(args.deep_view(), name@),
    {
        let (git_ref, repo, parsers) = parser_coordinates(args, owned(name));
        BuildTask {
            name: owned(name),
            git_ref,
            repo,
            parsers,
            dir: join_path(args.build_dir.as_str(), name),
        }
    }

    /// A second value that holds the same work.
    pub fn duplicate(&self) -> (r: BuildTask)
        ensures
            r.deep_view() == self.deep_view(),
    {
        BuildTask {
            name: self.name.clone(),
            git_ref: self.git_ref.clone(),
            repo: self.repo.clone(),
            parsers: clone_strings(&self.parsers),
            dir: self.dir.clone(),
        }
    }
}

/// The tasks of a configuration: one for each target that is built, no two
/// for one target.
pub fn build_tasks(args: &BuildCommand) -> (r: Vec<BuildTask>)
    ensures
        r.deep_view() == tasks_spec(args.deep_view()),
        forall|i: int, j: int|
            0 <= i < j < r.len() ==> (#[trigger] r[i]).name@ != (#[trigger] r[j]).name@,
{
    let targets = requested_languages(args);
    let mut tasks: Vec<BuildTask> = Vec::new();
    let mut i: usize = 0;
    while i < targets.len()
        invariant
            i <= targets.len(),
            tasks.len() == i,
            targets.deep_view() == targets_spec(args.deep_view()),
            forall|k: int|
                0 <= k < i ==> (#[trigger] tasks[k]).deep_view() == task_spec(
                    args.deep_view(),
                    targets[k]@,
                ),
        decreases targets.len() - i,
    {
        tasks.push(BuildTask::new(args, targets[i].as_str()));
        i += 1;
    }
    proof {
        assert(tasks.deep_view() =~= tasks_spec(args.deep_view()));
        assert forall|i: int, j: int| 0 <= i < j < tasks.len() implies (#[trigger] tasks[i]).name@
            != (#[trigger] tasks[j]).name@ by {
            assert(targets.deep_view()[i] == targets[i]@);
            assert(targets.deep_view()[j] == targets[j]@);
        }
    }
    tasks
}

} // verus!
