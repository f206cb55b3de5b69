use vstd::prelude::*;

use crate::sh::{
    display_cmd, display_cmd_spec, exec_message, handle_exec, ErrorKind, Failure, FailureView,
    Invocation, InvocationView, Status,
};
use crate::text::{concat, owned};

verus! {

/// Something that the caller does for the library.
#[derive(Clone, Debug, PartialEq, Eq)]
pub enum Action {
    /// Find out whether a path exists.
    Probe { path: String },
    /// Make a directory and the directories above it.
    MakeDir { path: String },
    /// Remove a file.
    Remove { path: String },
    /// Remove a directory and all that is in it.
    RemoveTree { path: String },
    /// Run a program to its end.
    Run(Invocation),
    /// Look for a program on the host.
    Locate { program: String },
    /// Tell the progress display that `delta` steps are completed.
    Report { delta: u64, message: String },
    /// Write an anomaly to the log.
    Warn { message: String },
}

/// Mathematical value of an [`Action`].
pub enum ActionView {
    Probe { path: Seq<char> },
    MakeDir { path: Seq<char> },
    Remove { path: Seq<char> },
    RemoveTree { path: Seq<char> },
    Run(InvocationView),
    Locate { program: Seq<char> },
    Report { delta: u64, message: Seq<char> },
    Warn { message: Seq<char> },
}

impl DeepView for Action {
    type V = ActionView;

    open spec fn deep_view(&self) -> ActionView {
        match self {
            Action::Probe { path } => ActionView::Probe { path: path@ },
            Action::MakeDir { path } => ActionView::MakeDir { path: path@ },
            Action::Remove { path } => ActionView::Remove { path: path@ },
            Action::RemoveTree { path } => ActionView::RemoveTree { path: path@ },
            Action::Run(invocation) => ActionView::Run(invocation.deep_view()),
            Action::Locate { program } => ActionView::Locate { program: program@ },
            Action::Report { delta, message } => ActionView::Report {
                delta: *delta,
                message: message@,
            },
            Action::Warn { message } => ActionView::Warn { message: message@ },
        }
    }
}

/// What came of an [`Action`].
#[derive(Clone, Debug, PartialEq, Eq)]
pub enum Event {
    /// The path exists, or does not.
    Exists(bool),
    /// The action is done.
    Done,
    /// The program ended, and this is what it wrote to its standard output
    /// and to its standard error, each as far as it is UTF-8 text.
    Exited { status: Status, stdout: Option<String>, stderr: Option<String> },
    /// The program is found at this path, or not found.
    Located(Option<String>),
    /// The action could not be done, for this reason.
    Failed(String),
}

/// Mathematical value of an [`Event`].
pub enum EventView {
    Exists(bool),
    Done,
    Exited { status: Status, stdout: Option<Seq<char>>, stderr: Option<Seq<char>> },
    Located(Option<Seq<char>>),
    Failed(Seq<char>),
}

impl DeepView for Event {
    type V = EventView;

    open spec fn deep_view(&self) -> EventView {
        match self {
            Event::Exists(b) => EventView::Exists(*b),
            Event::Done => EventView::Done,
            Event::Exited { status, stdout, stderr } => EventView::Exited {
                status: *status,
                stdout: stdout.deep_view(),
                stderr: stderr.deep_view(),
            },
            Event::Located(path) => EventView::Located(path.deep_view()),
            Event::Failed(reason) => EventView::Failed(reason@),
        }
    }
}

/// An action, what it is done for, and the part of the run that it belongs to.
#[derive(Clone, Debug, PartialEq, Eq)]
pub struct Step {
    pub action: Action,
    pub context: String,
    pub kind: ErrorKind,
}

/// Mathematical value of a [`Step`].
pub struct StepView {
    pub action: ActionView,
    pub context: Seq<char>,
    pub kind: ErrorKind,
}

impl DeepView for Step {
    type V = StepView;

    open spec fn deep_view(&self) -> StepView {
        StepView { action: self.action.deep_view(), context: self.context@, kind: self.kind }
    }
}

impl Action {
    /// A copy of this action.
    pub fn duplicate(&self) -> (r: Action)
        ensures
            r.deep_view() == self.deep_view(),
    {
        match self {
            Action::Probe { path } => Action::Probe { path: path.clone() },
            Action::MakeDir { path } => Action::MakeDir { path: path.clone() },
            Action::Remove { path } => Action::Remove { path: path.clone() },
            Action::RemoveTree { path } => Action::RemoveTree { path: path.clone() },
            Action::Run(invocation) => Action::Run(invocation.duplicate()),
            Action::Locate { program } => Action::Locate { program: program.clone() },
            Action::Report { delta, message } => Action::Report {
                delta: *delta,
                message: message.clone(),
            },
            Action::Warn { message } => Action::Warn { message: message.clone() },
        }
    }
}

impl Step {
    /// A copy of this step.
    pub fn clone_step(&self) -> (r: Step)
        ensures
            r.deep_view() == self.deep_view(),
    {
        Step { action: self.action.duplicate(), context: self.context.clone(), kind: self.kind }
    }
}

/// Whether an event is what an action that went well leads to.
pub open spec fn answers(action: ActionView, event: EventView) -> bool {
    match (action, event) {
        (ActionView::Probe { .. }, EventView::Exists(_)) => true,
        (ActionView::MakeDir { .. }, EventView::Done) => true,
        (ActionView::Remove { .. }, EventView::Done) => true,
        (ActionView::RemoveTree { .. }, EventView::Done) => true,
        (ActionView::Run(_), EventView::Exited { status, .. }) => status == Status::Success,
        (ActionView::Locate { .. }, EventView::Located(_)) => true,
        (ActionView::Report { .. }, EventView::Done) => true,
        (ActionView::Warn { .. }, EventView::Done) => true,
        _ => false,
    }
}

/// The chain of an error for a step that did not go well: the cause, then,
/// for a program that could not be started, the command, then what the step
/// was done for.
pub open spec fn failure_chain(step: StepView, event: EventView) -> Seq<Seq<char>> {
    match (step.action, event) {
        (ActionView::Run(invocation), EventView::Exited { status, .. }) => seq![
            exec_message(status, invocation.program)->0,
            step.context,
        ],
        (ActionView::Run(invocation), EventView::Failed(reason)) => seq![
            reason,
            "exec "@ + display_cmd_spec(invocation.program, invocation.args, invocation.at)
                + "."@,
            step.context,
        ],
        (_, EventView::Failed(reason)) => seq![reason, step.context],
        _ => seq!["Unexpected answer"@, step.context],
    }
}

/// What an event means for the step that it answers: nothing where the step
/// went well, else the error of the step's kind with its chain.
pub open spec fn judge_spec(step: StepView, event: EventView) -> Option<FailureView> {
    if answers(step.action, event) {
        None
    } else {
        Some(FailureView { kind: step.kind, chain: failure_chain(step, event) })
    }
}

/// Judges the answer to a step.
pub fn judge(step: &Step, event: &Event) -> (r: Result<(), Failure>)
    ensures
        match r {
            Ok(_) => judge_spec(step.deep_view(), event.deep_view()) is None,
            Err(failure) => judge_spec(step.deep_view(), event.deep_view()) == Some(
                failure.deep_view(),
            ),
        },
{
    match (&step.action, event) {
        (Action::Probe { .. }, Event::Exists(_)) => Ok(()),
        (Action::MakeDir { .. }, Event::Done) => Ok(()),
        (Action::Remove { .. }, Event::Done) => Ok(()),
        (Action::RemoveTree { .. }, Event::Done) => Ok(()),
        (Action::Locate { .. }, Event::Located(_)) => Ok(()),
        (Action::Report { .. }, Event::Done) => Ok(()),
        (Action::Warn { .. }, Event::Done) => Ok(()),
        (Action::Run(invocation), Event::Exited { status, .. }) => {
            match handle_exec(*status, invocation.program.as_str()) {
                Ok(_) => Ok(()),
                Err(message) => {
                    let failure = Failure::new(step.kind, message).context(step.context.clone());
                    assert(failure.deep_view().chain =~= failure_chain(
                        step.deep_view(),
                        event.deep_view(),
                    ));
                    Err(failure)
                },
            }
        },
        (Action::Run(invocation), Event::Failed(reason)) => {
            let shown = invocation.display();
            let mut command = concat("exec ", shown.as_str());
            command.append(".");
            let failure = Failure::new(step.kind, reason.clone()).context(command).context(
                step.context.clone(),
            );
            assert(failure.deep_view().chain =~= failure_chain(
                step.deep_view(),
                event.deep_view(),
            ));
            Err(failure)
        },
        (_, Event::Failed(reason)) => {
            let failure = Failure::new(step.kind, reason.clone()).context(step.context.clone());
            assert(failure.deep_view().chain =~= failure_chain(
                step.deep_view(),
                event.deep_view(),
            ));
            Err(failure)
        },
        _ => {
            let failure = Failure::new(step.kind, owned("Unexpected answer")).context(
                step.context.clone(),
            );
            assert(failure.deep_view().chain =~= failure_chain(
                step.deep_view(),
                event.deep_view(),
            ));
            Err(failure)
        },
    }
}

/// A list of steps that are taken in their order, up to the first one that fails.
pub struct Course {
    steps: Vec<Step>,
    position: usize,
    failure: Option<Failure>,
}

impl Course {
    #[verifier::type_invariant]
    spec fn well_formed(self) -> bool {
        self.position <= self.steps.len()
    }

    /// The steps of the course.
    pub closed spec fn steps(self) -> Seq<StepView> {
        self.steps.deep_view()
    }

    /// How many steps went well.
    pub closed spec fn position(self) -> int {
        self.position as int
    }

    /// The error that ended the course, if one did.
    pub closed spec fn failure(self) -> Option<FailureView> {
        self.failure.deep_view()
    }

    /// Whether nothing is left to do: a step failed, or every step went well.
    pub open spec fn finished(self) -> bool {
        self.failure() is Some || self.position() >= self.steps().len()
    }

    /// A course through the given steps, none of them taken yet.
    pub fn new(steps: Vec<Step>) -> (r: Course)
        ensures
            r.steps() == steps.deep_view(),
            r.position() == 0,
            r.failure() is None,
    {
        Course { steps, position: 0, failure: None }
    }

    /// The step to take next, unless the course is finished.
    pub fn pending(&self) -> (r: Option<&Step>)
        ensures
            0 <= self.position() <= self.steps().len(),
            match r {
                Some(step) => !self.finished() && step.deep_view() == self.steps()[self.position()],
                None => self.finished(),
            },
    {
        proof {
            use_type_invariant(self);
        }
        if self.failure.is_some() || self.position >= self.steps.len() {
            None
        } else {
            Some(&self.steps[self.position])
        }
    }

    /// Takes note of what came of the pending step: the course moves on to
    /// the next step where it went well, and ends with the step's error
    /// where it did not. A finished course stays as it is.
    pub fn record(&mut self, event: &Event)
        ensures
            final(self).steps() == old(self).steps(),
            old(self).finished() ==> final(self).position() == old(self).position()
                && final(self).failure() == old(self).failure(),
            !old(self).finished() ==> match judge_spec(
                old(self).steps()[old(self).position()],
                event.deep_view(),
            ) {
                None => {
                    &&& final(self).position() == old(self).position() + 1
                    &&& final(self).failure() is None
                },
                Some(failure) => {
                    &&& final(self).position() == old(self).position()
                    &&& final(self).failure() == Some(failure)
                },
            },
    {
        proof {
            use_type_invariant(&*self);
        }
        if self.failure.is_some() || self.position >= self.steps.len() {
            return ;
        }
        match judge(&self.steps[self.position], event) {
            Ok(_) => {
                self.position = self.position + 1;
            },
            Err(failure) => {
                self.failure = Some(failure);
            },
        }
    }

    /// How the course ended: nothing while steps are left, else success or
    /// the error of the step that failed.
    pub fn outcome(&self) -> (r: Option<Result<(), Failure>>)
        ensures
            match r {
                None => !self.finished(),
                Some(Ok(_)) => self.failure() is None && self.position() == self.steps().len(),
                Some(Err(failure)) => self.failure() == Some(failure.deep_view()),
            },
    {
        proof {
            use_type_invariant(self);
        }
        match &self.failure {
            Some(failure) => Some(Err(failure.duplicate())),
            None => if self.position >= self.steps.len() {
                Some(Ok(()))
            } else {
                None
            },
        }
    }
}

/// The cause of an error for output that is no text.
pub open spec fn unreadable_output() -> Seq<char> {
    "Could not read stdout in UTF-8"@
}

/// What a run of a command comes to: what the program wrote where it ended
/// well and wrote UTF-8 text, else the error with the program's name and how
/// it ended, or, for a program that could not be started, with the reason
/// and the command.
pub open spec fn exec_spec(
    command: Seq<char>,
    args: Seq<Seq<char>>,
    at: Option<Seq<char>>,
    event: EventView,
) -> Result<Seq<char>, FailureView> {
    match event {
        EventView::Exited { status, stdout, .. } => match exec_message(status, command) {
            None => match stdout {
                Some(text) => Ok(text),
                None => Err(
                    FailureView { kind: ErrorKind::Build, chain: seq![unreadable_output()] },
                ),
            },
            Some(message) => Err(FailureView { kind: ErrorKind::Build, chain: seq![message] }),
        },
        EventView::Failed(reason) => Err(
            FailureView {
                kind: ErrorKind::Build,
                chain: seq![reason, "exec "@ + display_cmd_spec(command, args, at) + "."@],
            },
        ),
        _ => Err(FailureView { kind: ErrorKind::Build, chain: seq!["Unexpected answer"@] }),
    }
}

/// The view of what a run of a command comes to.
pub open spec fn exec_view(r: Result<String, Failure>) -> Result<Seq<char>, FailureView> {
    match r {
        Ok(stdout) => Ok(stdout@),
        Err(failure) => Err(failure.deep_view()),
    }
}

fn conclude(command: &str, args: &Vec<String>, at: Option<&str>, event: &Event) -> (r: Result<
    String,
    Failure,
>)
    ensures
        exec_view(r) == exec_spec(command@, args.deep_view(), at.deep_view(), event.deep_view()),
{
    match event {
        Event::Exited { status, stdout, .. } => match handle_exec(*status, command) {
            Ok(_) => match stdout {
                Some(text) => Ok(text.clone()),
                None => Err(
                    Failure::new(ErrorKind::Build, owned("Could not read stdout in UTF-8")),
                ),
            },
            Err(message) => Err(Failure::new(ErrorKind::Build, message)),
        },
        Event::Failed(reason) => {
            let shown = display_cmd(command, args, at);
            let mut running = concat("exec ", shown.as_str());
            running.append(".");
            let failure = Failure::new(ErrorKind::Build, reason.clone()).context(running);
            assert(failure.deep_view().chain =~= seq![
                reason@,
                "exec "@ + display_cmd_spec(command@, args.deep_view(), at.deep_view()) + "."@,
            ]);
            Err(failure)
        },
        _ => Err(Failure::new(ErrorKind::Build, owned("Unexpected answer"))),
    }
}

/// What a run of a command where the caller stands comes to, given what came
/// of running it.
pub fn exec(command: &str, args: &Vec<String>, event: &Event) -> (r: Result<String, Failure>)
    ensures
        exec_view(r) == exec_spec(command@, args.deep_view(), None, event.deep_view()),
{
    conclude(command, args, None, event)
}

/// What a run of a command in the directory `at` comes to, given what came
/// of running it.
pub fn exec_at(at: &str, command: &str, args: &Vec<String>, event: &Event) -> (r: Result<
    String,
    Failure,
>)
    ensures
        exec_view(r) == exec_spec(command@, args.deep_view(), Some(at@), event.deep_view()),
{
    conclude(command, args, Some(at), event)
}

} // verus!
