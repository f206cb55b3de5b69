use vstd::prelude::*;

use crate::sh::{
    strings1, strings3, strings4, strings5, ErrorKind, Invocation, InvocationView,
};
use crate::steps::{Action, ActionView, Step, StepView};
use crate::text::{concat, decimal, number, owned};

verus! {

/// A step that runs `git` in a checkout.
pub open spec fn git_step(local: Seq<char>, args: Seq<Seq<char>>, context: Seq<char>) -> StepView {
    StepView {
        action: ActionView::Run(InvocationView { program: "git"@, args, at: Some(local) }),
        context,
        kind: ErrorKind::SourceFetch,
    }
}

/// The step that finds out whether the checkout is there.
pub open spec fn probe_step(local: Seq<char>) -> StepView {
    StepView {
        action: ActionView::Probe { path: local },
        context: "Checking if tree-sitter sources exist"@,
        kind: ErrorKind::SourceFetch,
    }
}

/// The steps that bring a checkout to where it can fetch: a checkout that
/// exists is reset to its head, which discards what was changed in it; one
/// that does not is made, initialised as an empty repository, and given the
/// repository as its one remote.
pub open spec fn prepare_steps(repo: Seq<char>, local: Seq<char>, exists: bool) -> Seq<StepView> {
    if exists {
        seq![git_step(local, seq!["reset"@, "--hard"@, "HEAD"@], "git reset --hard HEAD"@)]
    } else {
        seq![
            StepView {
                action: ActionView::MakeDir { path: local },
                context: "Creating local "@ + repo + " clone dir"@,
                kind: ErrorKind::SourceFetch,
            },
            git_step(local, seq!["init"@], "git -C "@ + crate::sh::quoted(local) + " init"@),
            git_step(
                local,
                seq!["remote"@, "add"@, "origin"@, repo],
                "git remote add origin "@ + repo,
            ),
        ]
    }
}

/// The steps that fetch one ref with a history of depth one and reset the
/// checkout to what was fetched.
pub open spec fn fetch_steps(git_ref: Seq<char>, local: Seq<char>) -> Seq<StepView> {
    seq![
        git_step(
            local,
            seq!["fetch"@, "origin"@, "--depth"@, "1"@, git_ref],
            "git fetch origin --depth 1 "@ + git_ref,
        ),
        git_step(
            local,
            seq!["reset"@, "--hard"@, "FETCH_HEAD"@],
            "git reset --hard FETCH_HEAD"@,
        ),
    ]
}

/// The steps of a shallow checkout of one ref, given whether the directory exists.
pub open spec fn clone_steps(
    repo: Seq<char>,
    git_ref: Seq<char>,
    local: Seq<char>,
    exists: bool,
) -> Seq<StepView> {
    prepare_steps(repo, local, exists) + fetch_steps(git_ref, local)
}

fn git_at(local: &str, args: Vec<String>, context: String) -> (r: Step)
    ensures
        r.deep_view() == git_step(local@, args.deep_view(), context@),
{
    Step {
        action: Action::Run(Invocation::new_at(local, "git", args)),
        context,
        kind: ErrorKind::SourceFetch,
    }
}

/// The step that finds out whether the directory of a checkout exists. Its
/// answer is what [`clone_fast`] asks for.
pub fn clone_probe(local: &str) -> (r: Step)
    ensures
        r.deep_view() == probe_step(local@),
{
    Step {
        action: Action::Probe { path: owned(local) },
        context: owned("Checking if tree-sitter sources exist"),
        kind: ErrorKind::SourceFetch,
    }
}

/// The steps of a shallow checkout of `git_ref` from `repo` into `local`,
/// given whether `local` exists. Each step names itself in the chain of the
/// error that it may end with.
pub fn clone_fast(repo: &str, git_ref: &str, local: &str, exists: bool) -> (r: Vec<Step>)
    ensures
        r.deep_view() == clone_steps(repo@, git_ref@, local@, exists),
{
    let mut steps: Vec<Step> = Vec::new();
    if exists {
        steps.push(
            git_at(local, strings3("reset", "--hard", "HEAD"), owned("git reset --hard HEAD")),
        );
    } else {
        let mut making = concat("Creating local ", repo);
        making.append(" clone dir");
        steps.push(
            Step {
                action: Action::MakeDir { path: owned(local) },
                context: making,
                kind: ErrorKind::SourceFetch,
            },
        );
        let mut init = concat("git -C \"", local);
        init.append("\"");
        init.append(" init");
        proof {
            reveal_strlit("git -C \"");
            reveal_strlit("git -C ");
            reveal_strlit("\"");
            assert("git -C \""@ =~= "git -C "@ + "\""@);
            assert(init@ =~= "git -C "@ + crate::sh::quoted(local@) + " init"@);
        }
        steps.push(git_at(local, strings1("init"), init));
        steps.push(
            git_at(
                local,
                strings4("remote", "add", "origin", repo),
                concat("git remote add origin ", repo),
            ),
        );
    }
    steps.push(
        git_at(
            local,
            strings5("fetch", "origin", "--depth", "1", git_ref),
            concat("git fetch origin --depth 1 ", git_ref),
        ),
    );
    steps.push(
        git_at(
            local,
            strings3("reset", "--hard", "FETCH_HEAD"),
            owned("git reset --hard FETCH_HEAD"),
        ),
    );
    proof {
        let wanted = clone_steps(repo@, git_ref@, local@, exists);
        assert(steps.len() == wanted.len());
        assert forall|k: int| 0 <= k < steps.len() implies #[trigger] steps.deep_view()[k]
            == wanted[k] by {
            assert(steps.deep_view()[k] == steps[k].deep_view());
        }
        assert(steps.deep_view() =~= wanted);
    }
    steps
}

/// What the steps of a checkout are taken to do to its directory: whether it
/// exists, which remotes it has, which ref was fetched last, which ref its
/// head is at, and whether it holds changes of its own.
pub struct Checkout {
    pub exists: bool,
    pub remotes: Seq<Seq<char>>,
    pub fetched: Option<Seq<char>>,
    pub head: Option<Seq<char>>,
    pub modified: bool,
}

/// The checkout after a step that went well, as `git` documents its
/// commands: `init` leaves an existing directory's remotes alone, `remote
/// add` adds one remote, `fetch` notes the ref, `reset --hard HEAD` discards
/// changes, `reset --hard FETCH_HEAD` moves the head to what was fetched and
/// discards changes. Making the directory makes it exist.
pub open spec fn effect(checkout: Checkout, step: StepView) -> Checkout {
    match step.action {
        ActionView::MakeDir { .. } => Checkout { exists: true, ..checkout },
        ActionView::Run(invocation) => {
            let args = invocation.args;
            if args.len() == 4 && args[0] == "remote"@ {
                Checkout { remotes: checkout.remotes.push(args[3]), ..checkout }
            } else if args.len() == 5 && args[0] == "fetch"@ {
                Checkout { fetched: Some(args[4]), ..checkout }
            } else if args.len() == 3 && args[2] == "FETCH_HEAD"@ {
                Checkout { head: checkout.fetched, modified: false, ..checkout }
            } else if args.len() == 3 && args[2] == "HEAD"@ {
                Checkout { modified: false, ..checkout }
            } else {
                checkout
            }
        },
        _ => checkout,
    }
}

/// The checkout after a list of steps that all went well.
pub open spec fn after(checkout: Checkout, steps: Seq<StepView>) -> Checkout
    decreases steps.len(),
{
    if steps.len() == 0 {
        checkout
    } else {
        effect(after(checkout, steps.drop_last()), steps.last())
    }
}

/// The checkout after the steps of one call that went well.
pub open spec fn fetched_once(
    checkout: Checkout,
    repo: Seq<char>,
    git_ref: Seq<char>,
    local: Seq<char>,
) -> Checkout {
    after(checkout, clone_steps(repo, git_ref, local, checkout.exists))
}

proof fn lemma_after_one(checkout: Checkout, steps: Seq<StepView>)
    requires
        steps.len() == 1,
    ensures
        after(checkout, steps) == effect(checkout, steps[0]),
{
    assert(steps.drop_last().len() == 0);
    assert(after(checkout, steps.drop_last()) == checkout);
}

proof fn lemma_after_push(checkout: Checkout, steps: Seq<StepView>, step: StepView)
    ensures
        after(checkout, steps.push(step)) == effect(after(checkout, steps), step),
{
    assert(steps.push(step).drop_last() =~= steps);
}

/// What one call that went well leaves behind: the directory exists, its
/// head is at the ref, it holds no changes of its own, and its remotes are
/// those it had, with the repository added only where the directory was new.
pub proof fn lemma_fetched_once(
    checkout: Checkout,
    repo: Seq<char>,
    git_ref: Seq<char>,
    local: Seq<char>,
)
    ensures
        fetched_once(checkout, repo, git_ref, local) == (Checkout {
            exists: true,
            remotes: if checkout.exists {
                checkout.remotes
            } else {
                checkout.remotes.push(repo)
            },
            fetched: Some(git_ref),
            head: Some(git_ref),
            modified: false,
        }),
{
    reveal_strlit("HEAD");
    reveal_strlit("FETCH_HEAD");
    assert("HEAD"@.len() != "FETCH_HEAD"@.len());
    let fetch = fetch_steps(git_ref, local);
    let prepare = prepare_steps(repo, local, checkout.exists);
    let prepared = after(checkout, prepare);
    if checkout.exists {
        lemma_after_one(checkout, prepare);
        assert(prepared == Checkout { modified: false, ..checkout });
    } else {
        let first = seq![prepare[0]];
        let second = first.push(prepare[1]);
        lemma_after_one(checkout, first);
        lemma_after_push(checkout, first, prepare[1]);
        lemma_after_push(checkout, second, prepare[2]);
        assert(second.push(prepare[2]) =~= prepare);
        assert(prepared == Checkout {
            exists: true,
            remotes: checkout.remotes.push(repo),
            ..checkout
        });
    }
    let with_fetch = prepare.push(fetch[0]);
    lemma_after_push(checkout, prepare, fetch[0]);
    lemma_after_push(checkout, with_fetch, fetch[1]);
    assert(with_fetch.push(fetch[1]) =~= clone_steps(repo, git_ref, local, checkout.exists));
}

/// A second call leaves what the first one left: taking the steps of a
/// checkout again, on the directory as the first call left it, adds no
/// remote and leaves no change behind.
pub proof fn lemma_refetch_is_idempotent(
    checkout: Checkout,
    repo: Seq<char>,
    git_ref: Seq<char>,
    local: Seq<char>,
)
    ensures
        ({
            let once = fetched_once(checkout, repo, git_ref, local);
            fetched_once(once, repo, git_ref, local) == once
        }),
{
    lemma_fetched_once(checkout, repo, git_ref, local);
    let once = fetched_once(checkout, repo, git_ref, local);
    lemma_fetched_once(once, repo, git_ref, local);
}

/// The command that lays its input out in columns of a given width behind
/// an indent.
pub fn column(indent: &str, width: usize) -> (r: Invocation)
    ensures
        r.deep_view() == (InvocationView {
            program: "git"@,
            args: seq![
                "column"@,
                "--mode=always"@,
                "--indent="@ + indent@,
                "--width="@ + decimal(width as nat),
            ],
            at: None,
        }),
{
    let indent_arg = concat("--indent=", indent);
    let digits = number(width as u64);
    let width_arg = concat("--width=", digits.as_str());
    Invocation::new(
        "git",
        strings4("column", "--mode=always", indent_arg.as_str(), width_arg.as_str()),
    )
}

} // verus!
