use vstd::prelude::*;

use crate::cli::{BuildCommand, BuildCommandView};
use crate::git::{clone_fast, clone_probe, clone_steps, probe_step};
use crate::parser::{
    build_tasks, requested_languages, targets_spec, tasks_spec, BuildTask, BuildTaskView,
};
use crate::sh::{strings1, ErrorKind, Failure, FailureView, Invocation, InvocationView};
use crate::steps::{judge_spec, Action, ActionView, Course, Event, EventView, Step, StepView};
use crate::text::{concat, join_path, owned, path_join, same};
use crate::toolchain::with_context;

verus! {

/// How the build of one target ended.
#[derive(Clone, Debug, PartialEq, Eq)]
pub enum BuildOutcome {
    Success,
    Failure(Failure),
}

/// Mathematical value of a [`BuildOutcome`].
pub enum BuildOutcomeView {
    Success,
    Failure(FailureView),
}

impl DeepView for BuildOutcome {
    type V = BuildOutcomeView;

    open spec fn deep_view(&self) -> BuildOutcomeView {
        match self {
            BuildOutcome::Success => BuildOutcomeView::Success,
            BuildOutcome::Failure(failure) => BuildOutcomeView::Failure(failure.deep_view()),
        }
    }
}

impl BuildOutcome {
    /// A copy of this outcome.
    pub fn duplicate(&self) -> (r: BuildOutcome)
        ensures
            r.deep_view() == self.deep_view(),
    {
        match self {
            BuildOutcome::Success => BuildOutcome::Success,
            BuildOutcome::Failure(failure) => BuildOutcome::Failure(failure.duplicate()),
        }
    }

    /// Whether the target was built.
    pub fn is_success(&self) -> (r: bool)
        ensures
            r == (self.deep_view() is Success),
    {
        match self {
            BuildOutcome::Success => true,
            BuildOutcome::Failure(_) => false,
        }
    }
}

/// The directory in which a sub-grammar is built: that of the target for the
/// sub-grammar of the target's own name, else the one of the sub-grammar's
/// name below it.
pub open spec fn grammar_dir(task: BuildTaskView, grammar: Seq<char>) -> Seq<char> {
    if grammar == task.name {
        task.dir
    } else {
        path_join(task.dir, grammar)
    }
}

/// The step that builds one sub-grammar with the toolchain executable.
pub open spec fn grammar_step(task: BuildTaskView, ts_cli: Seq<char>, grammar: Seq<char>) -> StepView {
    StepView {
        action: ActionView::Run(
            InvocationView {
                program: ts_cli,
                args: seq!["build"@],
                at: Some(grammar_dir(task, grammar)),
            },
        ),
        context: "Building "@ + grammar,
        kind: ErrorKind::Build,
    }
}

/// The steps that build the sub-grammars of a target, in their order.
pub open spec fn grammar_steps(task: BuildTaskView, ts_cli: Seq<char>) -> Seq<StepView> {
    Seq::new(task.parsers.len(), |i: int| grammar_step(task, ts_cli, task.parsers[i]))
}

/// The steps of a unit: first the question whether the target's directory
/// exists, and once that is known the checkout and then the builds.
pub open spec fn unit_steps(task: BuildTaskView, ts_cli: Seq<char>, exists: Option<bool>) -> Seq<
    StepView,
> {
    match exists {
        None => seq![probe_step(task.dir)],
        Some(there) => clone_steps(task.repo, task.git_ref, task.dir, there) + grammar_steps(
            task,
            ts_cli,
        ),
    }
}

/// What the build of a target is done for: the last link of the chain of an
/// error that ends it.
pub open spec fn unit_context(task: BuildTaskView) -> Seq<char> {
    "Building parser "@ + task.name
}

fn steps_of(task: &BuildTask, ts_cli: &str, exists: Option<bool>) -> (r: Vec<Step>)
    ensures
        r.deep_view() == unit_steps(task.deep_view(), ts_cli@, exists),
        r.len() >= 1,
{
    match exists {
        None => {
            let mut steps: Vec<Step> = Vec::new();
            steps.push(clone_probe(task.dir.as_str()));
            assert(steps.deep_view() =~= unit_steps(task.deep_view(), ts_cli@, exists));
            steps
        },
        Some(there) => {
            let mut steps = clone_fast(
                task.repo.as_str(),
                task.git_ref.as_str(),
                task.dir.as_str(),
                there,
            );
            let ghost cloned = steps.deep_view();
            let mut i: usize = 0;
            while i < task.parsers.len()
                invariant
                    i <= task.parsers.len(),
                    steps.len() == cloned.len() + i,
                    cloned.len() >= 1,
                    forall|k: int| 0 <= k < cloned.len() ==> (#[trigger] steps[k]).deep_view() == cloned[k],
                    forall|k: int|
                        0 <= k < i ==> (#[trigger] steps[cloned.len() + k]).deep_view()
                            == grammar_step(task.deep_view(), ts_cli@, task.parsers[k]@),
                decreases task.parsers.len() - i,
            {
                let grammar = &task.parsers[i];
                let at = if same(grammar.as_str(), task.name.as_str()) {
                    task.dir.clone()
                } else {
                    join_path(task.dir.as_str(), grammar.as_str())
                };
                let step = Step {
                    action: Action::Run(Invocation::new_at(at.as_str(), ts_cli, strings1("build"))),
                    context: concat("Building ", grammar.as_str()),
                    kind: ErrorKind::Build,
                };
                let ghost before = steps@;
                steps.push(step);
                assert forall|k: int| 0 <= k < cloned.len() implies (#[trigger] steps[k]).deep_view()
                    == cloned[k] by {
                    assert(steps[k] == before[k]);
                }
                assert forall|k: int| 0 <= k < i + 1 implies (#[trigger] steps[cloned.len()
                    + k]).deep_view() == grammar_step(
                    task.deep_view(),
                    ts_cli@,
                    task.parsers[k]@,
                ) by {
                    if k < i {
                        assert(steps[cloned.len() + k] == before[cloned.len() + k]);
                    }
                }
                i += 1;
            }
            proof {
                let wanted = unit_steps(task.deep_view(), ts_cli@, exists);
                assert(steps.len() == wanted.len());
                assert forall|k: int| 0 <= k < steps.len() implies #[trigger] steps.deep_view()[k]
                    == wanted[k] by {
                    if k >= cloned.len() {
                        assert(steps[cloned.len() + (k - cloned.len())].deep_view()
                            == grammar_step(
                            task.deep_view(),
                            ts_cli@,
                            task.parsers[k - cloned.len()]@,
                        ));
                    } else {
                        assert(steps[k].deep_view() == cloned[k]);
                    }
                }
                assert(steps.deep_view() =~= wanted);
            }
            steps
        },
    }
}

/// The build of one target: a checkout of its sources and a build of each of
/// its sub-grammars, one step at a time. The caller takes the pending step
/// and hands back what came of it. Units share nothing, so the steps of one
/// never wait for those of another.
pub struct BuildUnit {
    task: BuildTask,
    ts_cli: String,
    exists: Option<bool>,
    course: Course,
    result: Option<BuildOutcome>,
}

impl BuildUnit {
    #[verifier::type_invariant]
    spec fn well_formed(self) -> bool {
        &&& self.course.steps() == unit_steps(self.task.deep_view(), self.ts_cli@, self.exists)
        &&& self.result is None ==> self.course.failure() is None && 0 <= self.course.position()
            < self.course.steps().len()
    }

    /// The task of the unit.
    pub closed spec fn task(self) -> BuildTaskView {
        self.task.deep_view()
    }

    /// The toolchain executable that the unit builds with.
    pub closed spec fn ts_cli(self) -> Seq<char> {
        self.ts_cli@
    }

    /// Whether the target's directory was there before the unit began, once
    /// that is known.
    pub closed spec fn was_there(self) -> Option<bool> {
        self.exists
    }

    /// How many of the unit's current steps went well.
    pub closed spec fn position(self) -> int {
        self.course.position()
    }

    /// How the unit ended, once it has.
    pub closed spec fn result(self) -> Option<BuildOutcomeView> {
        self.result.deep_view()
    }

    /// The steps that the unit is taking.
    pub open spec fn steps(self) -> Seq<StepView> {
        unit_steps(self.task(), self.ts_cli(), self.was_there())
    }

    fn enter(task: BuildTask, ts_cli: String, exists: Option<bool>) -> (r: BuildUnit)
        ensures
            r.task() == task.deep_view(),
            r.ts_cli() == ts_cli@,
            r.was_there() == exists,
            r.position() == 0,
            r.result() is None,
    {
        let steps = steps_of(&task, ts_cli.as_str(), exists);
        let course = Course::new(steps);
        BuildUnit { task, ts_cli, exists, course, result: None }
    }

    /// A unit that has not begun.
    pub fn new(task: BuildTask, ts_cli: &str) -> (r: BuildUnit)
        ensures
            r.task() == task.deep_view(),
            r.ts_cli() == ts_cli@,
            r.was_there() is None,
            r.position() == 0,
            r.result() is None,
    {
        BuildUnit::enter(task, owned(ts_cli), None)
    }

    /// The name of the unit's target.
    pub fn name(&self) -> (r: String)
        ensures
            r@ == self.task().name,
    {
        self.task.name.clone()
    }

    /// The step to take next, unless the unit has ended.
    pub fn pending(&self) -> (r: Option<&Step>)
        ensures
            match r {
                Some(step) => self.result() is None && 0 <= self.position() < self.steps().len()
                    && step.deep_view() == self.steps()[self.position()],
                None => self.result() is Some,
            },
    {
        proof {
            use_type_invariant(self);
        }
        match &self.result {
            Some(_) => None,
            None => self.course.pending(),
        }
    }

    /// Takes note of what came of the pending step.
    ///
    /// A step that did not go well ends the unit with a failure that holds
    /// the step's error, to whose chain the target's name is added. A step
    /// that went well is followed by the next one; the answer to the
    /// question whether the directory exists is followed by the checkout;
    /// the last build ends the unit with success. A unit that has ended
    /// stays as it is.
    pub fn record(self, event: &Event) -> (r: BuildUnit)
        ensures
            r.task() == self.task(),
            r.ts_cli() == self.ts_cli(),
            self.result() is Some ==> r.was_there() == self.was_there() && r.position()
                == self.position() && r.result() == self.result(),
            self.result() is None ==> 0 <= self.position() < self.steps().len() && match judge_spec(
                self.steps()[self.position()],
                event.deep_view(),
            ) {
                Some(failure) => r.result() == Some(
                    BuildOutcomeView::Failure(with_context(failure, unit_context(self.task()))),
                ),
                None => if self.position() + 1 < self.steps().len() {
                    &&& r.was_there() == self.was_there()
                    &&& r.position() == self.position() + 1
                    &&& r.result() is None
                } else if self.was_there() is None {
                    &&& event.deep_view() is Exists
                    &&& r.was_there() == Some(event.deep_view()->Exists_0)
                    &&& r.position() == 0
                    &&& r.result() is None
                } else {
                    r.result() == Some(BuildOutcomeView::Success)
                },
            },
    {
        proof {
            use_type_invariant(&self);
        }
        let BuildUnit { task, ts_cli, exists, course, result } = self;
        if result.is_some() {
            return BuildUnit { task, ts_cli, exists, course, result };
        }
        let mut course = course;
        course.record(event);
        match course.outcome() {
            None => BuildUnit { task, ts_cli, exists, course, result: None },
            Some(Err(failure)) => {
                let failure = failure.context(concat("Building parser ", task.name.as_str()));
                BuildUnit {
                    task,
                    ts_cli,
                    exists,
                    course,
                    result: Some(BuildOutcome::Failure(failure)),
                }
            },
            Some(Ok(_)) => match exists {
                None => match event {
                    Event::Exists(there) => BuildUnit::enter(task, ts_cli, Some(*there)),
                    _ => {
                        proof {
                            assert(false);
                        }
                        BuildUnit { task, ts_cli, exists, course, result: Some(BuildOutcome::Success) }
                    },
                },
                Some(_) => BuildUnit {
                    task,
                    ts_cli,
                    exists,
                    course,
                    result: Some(BuildOutcome::Success),
                },
            },
        }
    }

    /// How the unit ended, once it has.
    pub fn outcome(&self) -> (r: Option<BuildOutcome>)
        ensures
            r.deep_view() == self.result(),
    {
        match &self.result {
            None => None,
            Some(outcome) => Some(outcome.duplicate()),
        }
    }
}

/// The units of a configuration: one for each target that is built, each
/// before its first step, no two for one target.
pub fn build_all(args: &BuildCommand, ts_cli: &str) -> (r: Vec<BuildUnit>)
    ensures
        r.len() == tasks_spec(args.deep_view()).len(),
        forall|i: int|
            0 <= i < r.len() ==> {
                &&& (#[trigger] r[i]).task() == tasks_spec(args.deep_view())[i]
                &&& r[i].ts_cli() == ts_cli@
                &&& r[i].was_there() is None
                &&& r[i].position() == 0
                &&& r[i].result() is None
            },
        forall|i: int, j: int|
            0 <= i < j < r.len() ==> (#[trigger] r[i]).task().name != (#[trigger] r[j]).task().name,
{
    let tasks = build_tasks(args);
    let mut units: Vec<BuildUnit> = Vec::new();
    let mut i: usize = 0;
    while i < tasks.len()
        invariant
            i <= tasks.len(),
            units.len() == i,
            forall|k: int|
                0 <= k < i ==> {
                    &&& (#[trigger] units[k]).task() == tasks[k].deep_view()
                    &&& units[k].ts_cli() == ts_cli@
                    &&& units[k].was_there() is None
                    &&& units[k].position() == 0
                    &&& units[k].result() is None
                },
        decreases tasks.len() - i,
    {
        units.push(BuildUnit::new(tasks[i].duplicate(), ts_cli));
        i += 1;
    }
    proof {
        assert forall|k: int| 0 <= k < units.len() implies (#[trigger] units[k]).task()
            == tasks_spec(args.deep_view())[k] by {
            assert(tasks.deep_view()[k] == tasks[k].deep_view());
        }
        assert forall|a: int, b: int| 0 <= a < b < units.len() implies (#[trigger] units[a]).task().name
            != (#[trigger] units[b]).task().name by {
            assert(tasks[a].name@ != tasks[b].name@);
        }
    }
    units
}

/// The outcomes of a run: a place for the outcome of each target that is
/// built, filled in whatever order the units end.
pub struct Ledger {
    names: Vec<String>,
    slots: Vec<Option<BuildOutcome>>,
}

impl Ledger {
    #[verifier::type_invariant]
    spec fn well_formed(self) -> bool {
        &&& self.names.len() == self.slots.len()
        &&& self.names.deep_view().no_duplicates()
    }

    /// The targets of the run.
    pub closed spec fn names(self) -> Seq<Seq<char>> {
        self.names.deep_view()
    }

    /// The outcome of each target, as far as it is known.
    pub closed spec fn slots(self) -> Seq<Option<BuildOutcomeView>> {
        self.slots.deep_view()
    }

    /// Whether the outcome of every target is known.
    pub open spec fn complete(self) -> bool {
        forall|i: int| 0 <= i < self.slots().len() ==> (#[trigger] self.slots()[i]) is Some
    }

    /// The ledger of a run that has not begun: a place for each target that
    /// is built, none of them filled.
    pub fn new(args: &BuildCommand) -> (r: Ledger)
        ensures
            r.names() == targets_spec(args.deep_view()),
            r.names().no_duplicates(),
            r.slots().len() == r.names().len(),
            forall|i: int| 0 <= i < r.slots().len() ==> (#[trigger] r.slots()[i]) is None,
    {
        let names = requested_languages(args);
        let mut slots: Vec<Option<BuildOutcome>> = Vec::new();
        let mut i: usize = 0;
        while i < names.len()
            invariant
                i <= names.len(),
                slots.len() == i,
                forall|k: int| 0 <= k < i ==> (#[trigger] slots[k]) is None,
            decreases names.len() - i,
        {
            slots.push(None);
            i += 1;
        }
        Ledger { names, slots }
    }

    /// Notes the outcome of a target. Only the place of that target changes,
    /// and only where it was empty: an outcome is noted once, a name that is
    /// no target of the run is not noted, and what is known of the other
    /// targets stays as it is.
    pub fn record(self, name: &str, outcome: BuildOutcome) -> (r: Ledger)
        ensures
            r.names() == self.names(),
            r.slots().len() == self.slots().len(),
            self.slots().len() == self.names().len(),
            forall|i: int|
                0 <= i < r.slots().len() ==> (#[trigger] r.slots()[i]) == if self.names()[i]
                    == name@ && self.slots()[i] is None {
                    Some(outcome.deep_view())
                } else {
                    self.slots()[i]
                },
    {
        proof {
            use_type_invariant(&self);
        }
        let Ledger { names, slots } = self;
        let mut slots = slots;
        let ghost before = slots.deep_view();
        let mut i: usize = 0;
        let mut found: Option<usize> = None;
        while i < names.len() && found.is_none()
            invariant
                i <= names.len(),
                match found {
                    Some(at) => at < names.len() && names.deep_view()[at as int] == name@,
                    None => forall|k: int| 0 <= k < i ==> names.deep_view()[k] != name@,
                },
            decreases names.len() - i + if found is None { 1int } else { 0int },
        {
            if same(names[i].as_str(), name) {
                assert(names.deep_view()[i as int] == name@);
                found = Some(i);
            } else {
                i += 1;
            }
        }
        match found {
            Some(at) => {
                let empty = slots[at].is_none();
                let ghost unchanged = slots@;
                if empty {
                    slots.set(at, Some(outcome));
                }
                proof {
                    assert forall|k: int| 0 <= k < slots.len() implies (#[trigger] slots.deep_view()[k])
                        == if names.deep_view()[k] == name@ && before[k] is None {
                        Some(outcome.deep_view())
                    } else {
                        before[k]
                    } by {
                        assert(before[k] == unchanged[k].deep_view());
                        if k != at {
                            assert(names.deep_view()[k] != names.deep_view()[at as int]);
                            assert(slots[k] == unchanged[k]);
                        }
                    }
                }
            },
            None => {
                proof {
                    assert forall|k: int| 0 <= k < slots.len() implies (#[trigger] slots.deep_view()[k])
                        == if names.deep_view()[k] == name@ && before[k] is None {
                        Some(outcome.deep_view())
                    } else {
                        before[k]
                    } by {
                        assert(names.deep_view()[k] != name@);
                    }
                }
            },
        }
        Ledger { names, slots }
    }

    /// Whether the outcome of every target is known.
    pub fn is_complete(&self) -> (r: bool)
        ensures
            r == self.complete(),
    {
        let mut i: usize = 0;
        while i < self.slots.len()
            invariant
                i <= self.slots.len(),
                forall|k: int| 0 <= k < i ==> (#[trigger] self.slots.deep_view()[k]) is Some,
            decreases self.slots.len() - i,
        {
            if self.slots[i].is_none() {
                assert(self.slots.deep_view()[i as int] is None);
                return false;
            }
            i += 1;
        }
        true
    }

    /// The targets of the run, each with its outcome as far as it is known:
    /// one entry for each target, whatever the outcomes of the others.
    pub fn report(&self) -> (r: Vec<(String, Option<BuildOutcome>)>)
        ensures
            r.len() == self.names().len(),
            self.slots().len() == self.names().len(),
            forall|i: int|
                0 <= i < r.len() ==> (#[trigger] r[i]).0@ == self.names()[i] && r[i].1.deep_view()
                    == self.slots()[i],
    {
        proof {
            use_type_invariant(self);
        }
        let mut r: Vec<(String, Option<BuildOutcome>)> = Vec::new();
        let mut i: usize = 0;
        while i < self.names.len()
            invariant
                i <= self.names.len(),
                self.names.len() == self.slots.len(),
                r.len() == i,
                forall|k: int|
                    0 <= k < i ==> (#[trigger] r[k]).0@ == self.names.deep_view()[k]
                        && r[k].1.deep_view() == self.slots.deep_view()[k],
            decreases self.names.len() - i,
        {
            let outcome = match &self.slots[i] {
                Some(outcome) => Some(outcome.duplicate()),
                None => None,
            };
            r.push((self.names[i].clone(), outcome));
            i += 1;
        }
        r
    }
}

/// Partial failure isolation: noting one target's outcome, whatever it is,
/// leaves the outcome of every other target as it was, and a ledger whose
/// every place is filled holds exactly one outcome for each target.
pub proof fn lemma_outcomes_are_isolated(
    names: Seq<Seq<char>>,
    before: Seq<Option<BuildOutcomeView>>,
    after: Seq<Option<BuildOutcomeView>>,
    name: Seq<char>,
    outcome: BuildOutcomeView,
)
    requires
        names.no_duplicates(),
        before.len() == names.len(),
        after.len() == names.len(),
        forall|i: int|
            0 <= i < after.len() ==> (#[trigger] after[i]) == if names[i] == name
                && before[i] is None {
                Some(outcome)
            } else {
                before[i]
            },
    ensures
        forall|i: int| 0 <= i < names.len() && names[i] != name ==> after[i] == before[i],
        forall|i: int| 0 <= i < names.len() && before[i] is Some ==> after[i] == before[i],
        forall|i: int, j: int|
            0 <= i < names.len() && 0 <= j < names.len() && after[i] != before[i] && after[j]
                != before[j] ==> i == j,
{
    assert forall|i: int, j: int|
        0 <= i < names.len() && 0 <= j < names.len() && after[i] != before[i] && after[j]
            != before[j] implies i == j by {
        assert(names[i] == name);
        assert(names[j] == name);
    }
}

} // verus!
