use vstd::prelude::*;

use crate::cli::{BuildCommand, BuildCommandView};
use crate::sh::ErrorKind;
use crate::steps::{Action, ActionView, Step, StepView};
use crate::text::{concat, owned};

verus! {

/// The name under which the emptying of the build directory shows its progress.
pub const STAGE_NAME: &'static str = "Fresh Build";

/// The number of steps of progress that the emptying of the build directory reports.
pub const STAGE_STEPS: usize = 1;

/// Whether making the build directory ready empties it first, and so
/// reports progress: it does for a fresh build of a directory that exists.
pub fn clear_reports(command: &BuildCommand, exists: bool) -> (r: bool)
    ensures
        r == (command.fresh && exists),
        r == (clear_spec(command.deep_view(), exists).len() == 3),
        r ==> clear_spec(command.deep_view(), exists)[1].action == (ActionView::Report {
            delta: STAGE_STEPS as u64,
            message: "Cleaned "@ + command.deep_view().build_dir,
        }),
{
    command.fresh && exists
}

/// The steps that make the build directory ready: where a fresh build is
/// asked for and the directory exists it is removed with all that is in it,
/// which is reported as one step of progress; then the directory is made.
pub open spec fn clear_spec(command: BuildCommandView, exists: bool) -> Seq<StepView> {
    let make = StepView {
        action: ActionView::MakeDir { path: command.build_dir },
        context: "Creating the build dir"@,
        kind: ErrorKind::Build,
    };
    if command.fresh && exists {
        seq![
            StepView {
                action: ActionView::RemoveTree { path: command.build_dir },
                context: "Removing the build_dir "@ + command.build_dir + " for a fresh build"@,
                kind: ErrorKind::Build,
            },
            StepView {
                action: ActionView::Report {
                    delta: 1,
                    message: "Cleaned "@ + command.build_dir,
                },
                context: "Reporting progress"@,
                kind: ErrorKind::Build,
            },
            make,
        ]
    } else {
        seq![make]
    }
}

/// The steps that make the build directory ready, given whether it exists.
pub fn clear(command: &BuildCommand, exists: bool) -> (r: Vec<Step>)
    ensures
        r.deep_view() == clear_spec(command.deep_view(), exists),
{
    let mut steps: Vec<Step> = Vec::new();
    if command.fresh && exists {
        let mut context = concat("Removing the build_dir ", command.build_dir.as_str());
        context.append(" for a fresh build");
        steps.push(
            Step {
                action: Action::RemoveTree { path: command.build_dir.clone() },
                context,
                kind: ErrorKind::Build,
            },
        );
        steps.push(
            Step {
                action: Action::Report {
                    delta: 1,
                    message: concat("Cleaned ", command.build_dir.as_str()),
                },
                context: owned("Reporting progress"),
                kind: ErrorKind::Build,
            },
        );
    }
    steps.push(
        Step {
            action: Action::MakeDir { path: command.build_dir.clone() },
            context: owned("Creating the build dir"),
            kind: ErrorKind::Build,
        },
    );
    proof {
        let wanted = clear_spec(command.deep_view(), exists);
        assert(steps.len() == wanted.len());
        assert forall|k: int| 0 <= k < steps.len() implies #[trigger] steps.deep_view()[k]
            == wanted[k] by {
            assert(steps.deep_view()[k] == steps[k].deep_view());
        }
        assert(steps.deep_view() =~= wanted);
    }
    steps
}

} // verus!
