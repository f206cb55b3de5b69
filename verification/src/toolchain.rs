use vstd::prelude::*;

use crate::cli::BuildCommand;
use crate::git::{clone_fast, clone_probe, clone_steps, probe_step};
use crate::sh::{download_args, unknown_tool, ErrorKind, Failure, FailureView};
use crate::steps::{
    judge_spec, unreadable_output, Action, ActionView, Course, Event, EventView, Step, StepView,
};
use crate::text::{concat, owned};
use crate::tree_sitter::{
    archive_path, archive_path_spec, chmod_step, cli_path, cli_path_spec, cli_url, cli_url_spec,
    download_step, gunzip_step, library_path, library_path_spec, listing_step, listing_step_spec,
    make, run_step, source_dir, source_dir_spec, stale_path, stale_path_spec, tag, tag_failure,
    tag_spec, HostOs,
};

verus! {

/// The name under which an acquisition shows its progress.
pub const STAGE_NAME: &'static str = "TreeSitter";

/// The number of steps of progress that an acquisition reports.
pub const STAGE_STEPS: usize = 4;

/// What an acquisition is asked for.
#[derive(Clone, Debug, PartialEq, Eq)]
pub struct Request {
    pub repo: String,
    pub version: String,
    pub platform: String,
    pub build_dir: String,
    pub build_static: bool,
    pub fresh: bool,
    pub host: HostOs,
}

/// Mathematical value of a [`Request`].
pub struct RequestView {
    pub repo: Seq<char>,
    pub version: Seq<char>,
    pub platform: Seq<char>,
    pub build_dir: Seq<char>,
    pub build_static: bool,
    pub fresh: bool,
    pub host: HostOs,
}

impl DeepView for Request {
    type V = RequestView;

    open spec fn deep_view(&self) -> RequestView {
        RequestView {
            repo: self.repo@,
            version: self.version@,
            platform: self.platform@,
            build_dir: self.build_dir@,
            build_static: self.build_static,
            fresh: self.fresh,
            host: self.host,
        }
    }
}

/// The acquired toolchain: the release tag, the executable and the library.
#[derive(Clone, Debug, PartialEq, Eq)]
pub struct ToolchainHandle {
    pub tag: String,
    pub executable: String,
    pub library: String,
}

/// Mathematical value of a [`ToolchainHandle`].
pub struct ToolchainHandleView {
    pub tag: Seq<char>,
    pub executable: Seq<char>,
    pub library: Seq<char>,
}

impl DeepView for ToolchainHandle {
    type V = ToolchainHandleView;

    open spec fn deep_view(&self) -> ToolchainHandleView {
        ToolchainHandleView { tag: self.tag@, executable: self.executable@, library: self.library@ }
    }
}

/// Where an acquisition stands.
#[derive(Clone, Debug, PartialEq, Eq)]
pub enum Stage {
    /// The tags of the repository are listed.
    Tags,
    /// The executable is looked for in the build directory.
    Cli { tag: String },
    /// The first download tool is looked for.
    Curl { tag: String },
    /// The second download tool is looked for.
    Wget { tag: String },
    /// The executable is downloaded, decompressed and made executable.
    Download { tag: String, fetch: Step },
    /// The sources of the library are looked for.
    Sources { tag: String },
    /// The sources are fetched and the library is built.
    Library { tag: String, exists: bool },
    /// The library of the other link mode is looked for.
    Artifact { tag: String },
    /// The library of the other link mode is removed.
    Remove { tag: String },
    /// That there was no library of the other link mode is noted.
    Anomaly { tag: String },
    /// The end is reported.
    Finish { tag: String },
}

/// Mathematical value of a [`Stage`].
pub enum StageView {
    Tags,
    Cli { tag: Seq<char> },
    Curl { tag: Seq<char> },
    Wget { tag: Seq<char> },
    Download { tag: Seq<char>, fetch: StepView },
    Sources { tag: Seq<char> },
    Library { tag: Seq<char>, exists: bool },
    Artifact { tag: Seq<char> },
    Remove { tag: Seq<char> },
    Anomaly { tag: Seq<char> },
    Finish { tag: Seq<char> },
}

impl DeepView for Stage {
    type V = StageView;

    open spec fn deep_view(&self) -> StageView {
        match self {
            Stage::Tags => StageView::Tags,
            Stage::Cli { tag } => StageView::Cli { tag: tag@ },
            Stage::Curl { tag } => StageView::Curl { tag: tag@ },
            Stage::Wget { tag } => StageView::Wget { tag: tag@ },
            Stage::Download { tag, fetch } => StageView::Download {
                tag: tag@,
                fetch: fetch.deep_view(),
            },
            Stage::Sources { tag } => StageView::Sources { tag: tag@ },
            Stage::Library { tag, exists } => StageView::Library { tag: tag@, exists: *exists },
            Stage::Artifact { tag } => StageView::Artifact { tag: tag@ },
            Stage::Remove { tag } => StageView::Remove { tag: tag@ },
            Stage::Anomaly { tag } => StageView::Anomaly { tag: tag@ },
            Stage::Finish { tag } => StageView::Finish { tag: tag@ },
        }
    }
}

/// What follows a stage whose steps all went well.
pub enum Transition {
    Go(Stage),
    Fail(Failure),
    Done(ToolchainHandle),
}

/// Mathematical value of a [`Transition`].
pub enum TransitionView {
    Go(StageView),
    Fail(FailureView),
    Done(ToolchainHandleView),
}

impl DeepView for Transition {
    type V = TransitionView;

    open spec fn deep_view(&self) -> TransitionView {
        match self {
            Transition::Go(stage) => TransitionView::Go(stage.deep_view()),
            Transition::Fail(failure) => TransitionView::Fail(failure.deep_view()),
            Transition::Done(handle) => TransitionView::Done(handle.deep_view()),
        }
    }
}

/// A step that tells the progress display that one more of the four steps of
/// an acquisition is under way or done.
pub open spec fn report_step(message: Seq<char>) -> StepView {
    StepView {
        action: ActionView::Report { delta: 1, message },
        context: "Reporting progress"@,
        kind: ErrorKind::Build,
    }
}

/// A step that asks whether a file of the toolchain is there.
pub open spec fn file_probe(path: Seq<char>, kind: ErrorKind) -> StepView {
    StepView { action: ActionView::Probe { path }, context: "Checking for "@ + path, kind }
}

/// A step that looks for a download tool.
pub open spec fn locate_step(program: Seq<char>) -> StepView {
    StepView {
        action: ActionView::Locate { program },
        context: "Finding curl or wget on your system."@,
        kind: ErrorKind::Transfer,
    }
}

/// The link mode by its name.
pub open spec fn mode_name(build_static: bool) -> Seq<char> {
    if build_static {
        "static"@
    } else {
        "dynamic"@
    }
}

/// Whether a stage is one that an acquisition can be in: what a download
/// stage fetches with is a program to run.
pub open spec fn sound_stage(stage: StageView) -> bool {
    stage is Download ==> stage->Download_fetch.action is Run
}

/// What a stage is done for: the last link of the chain of an error that
/// ends it.
pub open spec fn stage_context(stage: StageView) -> Seq<char> {
    match stage {
        StageView::Tags => "Figuring out the appropriate tag for requested tree-sitter version"@,
        StageView::Cli { .. } | StageView::Curl { .. } | StageView::Wget { .. } | StageView::Download {
            ..
        } => "Fetching tree-sitter cli for requested platform"@,
        StageView::Sources { .. } | StageView::Library { .. } => "Cloning and building tree-sitter"@,
        _ => "Enforcing the link mode"@,
    }
}

/// The kind of error that a stage ends with: resolution while the tag is
/// looked for, transfer while the executable is fetched, build from then on.
pub open spec fn stage_kind(stage: StageView) -> ErrorKind {
    match stage {
        StageView::Tags => ErrorKind::ToolchainResolution,
        StageView::Cli { .. } | StageView::Curl { .. } | StageView::Wget { .. } | StageView::Download {
            ..
        } => ErrorKind::Transfer,
        _ => ErrorKind::Build,
    }
}

/// The error that ends a stage one of whose steps did not go well: the
/// chain of the step's error with what the stage is done for at its end,
/// and the kind of the stage.
pub open spec fn stage_failure(failure: FailureView, stage: StageView) -> FailureView {
    FailureView { kind: stage_kind(stage), chain: failure.chain.push(stage_context(stage)) }
}

/// The steps of a stage, in their order.
pub open spec fn stage_steps_spec(request: RequestView, stage: StageView) -> Seq<StepView> {
    let stale = stale_path_spec(request.build_dir, request.build_static, request.host);
    match stage {
        StageView::Tags => seq![
            report_step("Figuring out tag from version "@ + request.version),
            listing_step_spec(request.repo),
        ],
        StageView::Cli { .. } => seq![
            report_step("Fetching tree-sitter-cli for "@ + request.platform),
            file_probe(cli_path_spec(request.build_dir, request.platform), ErrorKind::Transfer),
        ],
        StageView::Curl { .. } => seq![locate_step("curl"@)],
        StageView::Wget { .. } => seq![locate_step("wget"@)],
        StageView::Download { fetch, .. } => seq![
            fetch,
            run_step(
                "gunzip"@,
                seq![archive_path_spec(request.build_dir, request.platform)],
                "Unzipping tree-sitter-cli"@,
                ErrorKind::Transfer,
            ),
            run_step(
                "chmod"@,
                seq!["+x"@, cli_path_spec(request.build_dir, request.platform)],
                "chmod +x tree-sitter-cli"@,
                ErrorKind::Transfer,
            ),
        ],
        StageView::Sources { tag } => seq![
            report_step("Building tree-sitter "@ + tag),
            probe_step(source_dir_spec(request.build_dir)),
        ],
        StageView::Library { tag, exists } => clone_steps(
            request.repo,
            tag,
            source_dir_spec(request.build_dir),
            exists,
        ).push(
            run_step(
                "make"@,
                seq!["-C"@, source_dir_spec(request.build_dir)],
                "Building tree-sitter"@,
                ErrorKind::Build,
            ),
        ),
        StageView::Artifact { .. } => seq![file_probe(stale, ErrorKind::Build)],
        StageView::Remove { .. } => seq![
            StepView {
                action: ActionView::Remove { path: stale },
                context: "Removing "@ + stale + " to force "@ + mode_name(request.build_static)
                    + " linking"@,
                kind: ErrorKind::Build,
            },
        ],
        StageView::Anomaly { .. } => seq![
            StepView {
                action: ActionView::Warn {
                    message: "Tried to delete "@ + stale + ", but couldn't find it."@,
                },
                context: "Noting a missing library"@,
                kind: ErrorKind::Build,
            },
        ],
        StageView::Finish { tag } => seq![report_step("tree-sitter "@ + tag + " built"@)],
    }
}

/// The error of an answer that no step of the stage can have led to.
pub open spec fn unexpected(kind: ErrorKind) -> FailureView {
    FailureView { kind, chain: seq!["Unexpected answer"@] }
}

/// The error with one more link at the end of its chain.
pub open spec fn with_context(failure: FailureView, context: Seq<char>) -> FailureView {
    FailureView { kind: failure.kind, chain: failure.chain.push(context) }
}

/// The stage that downloads with the tool found at `program`, or the error
/// for a tool that is neither of the two.
pub open spec fn download_transition(request: RequestView, tag: Seq<char>, program: Seq<char>) -> TransitionView {
    let out = archive_path_spec(request.build_dir, request.platform);
    let url = cli_url_spec(request.repo, tag, request.platform);
    match download_args(program, out, url) {
        Some(args) => TransitionView::Go(
            StageView::Download {
                tag,
                fetch: run_step(program, args, "Downloading tree-sitter-cli"@, ErrorKind::Transfer),
            },
        ),
        None => TransitionView::Fail(
            with_context(unknown_tool(program), "Fetching tree-sitter cli for requested platform"@),
        ),
    }
}

/// The error for a listing of tags that is no text.
pub open spec fn unreadable_listing() -> FailureView {
    FailureView {
        kind: ErrorKind::ToolchainResolution,
        chain: seq![unreadable_output(), stage_context(StageView::Tags)],
    }
}

/// The error for a host that has neither download tool.
pub open spec fn no_transfer_tool() -> FailureView {
    FailureView {
        kind: ErrorKind::Transfer,
        chain: seq![
            "No transfer tool available"@,
            "Finding curl or wget on your system."@,
            "Fetching tree-sitter cli for requested platform"@,
        ],
    }
}

/// What follows a stage, given the answer to its last step.
///
/// The listing decides the tag; an executable that is there is not fetched
/// again; the first download tool that is found is used; sources that are
/// there are reset, not cloned again; a library of the other link mode is
/// removed where it is there, and where it is not that is an anomaly only in
/// a fresh build.
pub open spec fn next_stage_spec(request: RequestView, stage: StageView, event: EventView) -> TransitionView {
    match (stage, event) {
        (StageView::Tags, EventView::Exited { stdout: Some(listing), .. }) => match tag_spec(
            listing,
            request.version,
        ) {
            Some(tag) => TransitionView::Go(StageView::Cli { tag }),
            None => TransitionView::Fail(
                with_context(
                    tag_failure(listing, request.version, request.repo),
                    stage_context(StageView::Tags),
                ),
            ),
        },
        (StageView::Tags, EventView::Exited { stdout: None, .. }) => TransitionView::Fail(
            unreadable_listing(),
        ),
        (StageView::Cli { tag }, EventView::Exists(true)) => TransitionView::Go(
            StageView::Sources { tag },
        ),
        (StageView::Cli { tag }, EventView::Exists(false)) => TransitionView::Go(
            StageView::Curl { tag },
        ),
        (StageView::Curl { tag }, EventView::Located(Some(program))) => download_transition(
            request,
            tag,
            program,
        ),
        (StageView::Curl { tag }, EventView::Located(None)) => TransitionView::Go(
            StageView::Wget { tag },
        ),
        (StageView::Wget { tag }, EventView::Located(Some(program))) => download_transition(
            request,
            tag,
            program,
        ),
        (StageView::Wget { .. }, EventView::Located(None)) => TransitionView::Fail(
            no_transfer_tool(),
        ),
        (StageView::Download { tag, .. }, EventView::Exited { .. }) => TransitionView::Go(
            StageView::Sources { tag },
        ),
        (StageView::Sources { tag }, EventView::Exists(exists)) => TransitionView::Go(
            StageView::Library { tag, exists },
        ),
        (StageView::Library { tag, .. }, EventView::Exited { .. }) => TransitionView::Go(
            StageView::Artifact { tag },
        ),
        (StageView::Artifact { tag }, EventView::Exists(true)) => TransitionView::Go(
            StageView::Remove { tag },
        ),
        (StageView::Artifact { tag }, EventView::Exists(false)) => if request.fresh {
            TransitionView::Go(StageView::Anomaly { tag })
        } else {
            TransitionView::Go(StageView::Finish { tag })
        },
        (StageView::Remove { tag }, EventView::Done) => TransitionView::Go(
            StageView::Finish { tag },
        ),
        (StageView::Anomaly { tag }, EventView::Done) => TransitionView::Go(
            StageView::Finish { tag },
        ),
        (StageView::Finish { tag }, EventView::Done) => TransitionView::Done(
            ToolchainHandleView {
                tag,
                executable: cli_path_spec(request.build_dir, request.platform),
                library: library_path_spec(request.build_dir, request.build_static, request.host),
            },
        ),
        _ => TransitionView::Fail(unexpected(ErrorKind::Build)),
    }
}

fn report(message: String) -> (r: Step)
    ensures
        r.deep_view() == report_step(message@),
{
    Step {
        action: Action::Report { delta: 1, message },
        context: owned("Reporting progress"),
        kind: ErrorKind::Build,
    }
}

fn probe_file(path: String, kind: ErrorKind) -> (r: Step)
    ensures
        r.deep_view() == file_probe(path@, kind),
{
    let context = concat("Checking for ", path.as_str());
    Step { action: Action::Probe { path }, context, kind }
}

fn locate(program: &str) -> (r: Step)
    ensures
        r.deep_view() == locate_step(program@),
{
    Step {
        action: Action::Locate { program: owned(program) },
        context: owned("Finding curl or wget on your system."),
        kind: ErrorKind::Transfer,
    }
}

impl Request {
    /// What a configuration asks of an acquisition on a host.
    pub open spec fn new_spec(args: crate::cli::BuildCommandView, host: HostOs) -> RequestView {
        RequestView {
            repo: args.tree_sitter.repo,
            version: args.tree_sitter.version,
            platform: args.tree_sitter.platform,
            build_dir: args.build_dir,
            build_static: args.build_static,
            fresh: args.fresh,
            host,
        }
    }

    /// What a configuration asks of an acquisition on a host.
    pub fn new(args: &BuildCommand, host: HostOs) -> (r: Request)
        ensures
            r.deep_view() == Request::new_spec(args.deep_view(), host),
    {
        Request {
            repo: args.tree_sitter.repo.clone(),
            version: args.tree_sitter.version.clone(),
            platform: args.tree_sitter.platform.clone(),
            build_dir: args.build_dir.clone(),
            build_static: args.build_static,
            fresh: args.fresh,
            host,
        }
    }

    /// A copy of this request.
    pub fn duplicate(&self) -> (r: Request)
        ensures
            r.deep_view() == self.deep_view(),
    {
        Request {
            repo: self.repo.clone(),
            version: self.version.clone(),
            platform: self.platform.clone(),
            build_dir: self.build_dir.clone(),
            build_static: self.build_static,
            fresh: self.fresh,
            host: self.host,
        }
    }
}

/// The steps of a stage, in their order.
pub fn stage_steps(request: &Request, stage: &Stage) -> (r: Vec<Step>)
    ensures
        r.deep_view() == stage_steps_spec(request.deep_view(), stage.deep_view()),
        r.len() >= 1,
{
    let mut steps: Vec<Step> = Vec::new();
    match stage {
        Stage::Tags => {
            steps.push(report(concat("Figuring out tag from version ", request.version.as_str())));
            steps.push(listing_step(request.repo.as_str()));
        },
        Stage::Cli { .. } => {
            steps.push(
                report(concat("Fetching tree-sitter-cli for ", request.platform.as_str())),
            );
            steps.push(
                probe_file(
                    cli_path(request.build_dir.as_str(), request.platform.as_str()),
                    ErrorKind::Transfer,
                ),
            );
        },
        Stage::Curl { .. } => {
            steps.push(locate("curl"));
        },
        Stage::Wget { .. } => {
            steps.push(locate("wget"));
        },
        Stage::Download { fetch, .. } => {
            let gz = archive_path(request.build_dir.as_str(), request.platform.as_str());
            let cli = cli_path(request.build_dir.as_str(), request.platform.as_str());
            steps.push(fetch.clone_step());
            steps.push(gunzip_step(gz.as_str()));
            steps.push(chmod_step(cli.as_str()));
        },
        Stage::Sources { tag } => {
            let src = source_dir(request.build_dir.as_str());
            steps.push(report(concat("Building tree-sitter ", tag.as_str())));
            steps.push(clone_probe(src.as_str()));
        },
        Stage::Library { tag, exists } => {
            let src = source_dir(request.build_dir.as_str());
            steps = clone_fast(request.repo.as_str(), tag.as_str(), src.as_str(), *exists);
            let ghost cloned = steps.deep_view();
            steps.push(make(src.as_str()));
            assert(steps.deep_view() =~= cloned.push(steps[steps.len() - 1].deep_view()));
        },
        Stage::Artifact { .. } => {
            let stale = stale_path(request.build_dir.as_str(), request.build_static, request.host);
            steps.push(probe_file(stale, ErrorKind::Build));
        },
        Stage::Remove { .. } => {
            let stale = stale_path(request.build_dir.as_str(), request.build_static, request.host);
            let mut context = concat("Removing ", stale.as_str());
            context.append(" to force ");
            context.append(
                if request.build_static {
                    "static"
                } else {
                    "dynamic"
                },
            );
            context.append(" linking");
            steps.push(
                Step { action: Action::Remove { path: stale }, context, kind: ErrorKind::Build },
            );
        },
        Stage::Anomaly { .. } => {
            let stale = stale_path(request.build_dir.as_str(), request.build_static, request.host);
            let mut message = concat("Tried to delete ", stale.as_str());
            message.append(", but couldn't find it.");
            steps.push(
                Step {
                    action: Action::Warn { message },
                    context: owned("Noting a missing library"),
                    kind: ErrorKind::Build,
                },
            );
        },
        Stage::Finish { tag } => {
            let mut message = concat("tree-sitter ", tag.as_str());
            message.append(" built");
            steps.push(report(message));
        },
    }
    proof {
        let wanted = stage_steps_spec(request.deep_view(), stage.deep_view());
        assert(steps.len() == wanted.len());
        assert forall|k: int| 0 <= k < steps.len() implies #[trigger] steps.deep_view()[k]
            == wanted[k] by {
            assert(steps.deep_view()[k] == steps[k].deep_view());
        }
        assert(steps.deep_view() =~= wanted);
    }
    steps
}

fn download_stage(request: &Request, tag: &String, program: &String) -> (r: Transition)
    ensures
        r.deep_view() == download_transition(request.deep_view(), tag@, program@),
        r.deep_view() matches TransitionView::Go(next) ==> sound_stage(next),
{
    let out = archive_path(request.build_dir.as_str(), request.platform.as_str());
    let url = cli_url(request.repo.as_str(), tag.as_str(), request.platform.as_str());
    match download_step(program.as_str(), out.as_str(), url.as_str()) {
        Ok(fetch) => Transition::Go(Stage::Download { tag: tag.clone(), fetch }),
        Err(failure) => Transition::Fail(
            failure.context(owned("Fetching tree-sitter cli for requested platform")),
        ),
    }
}

/// What follows a stage, given the answer to its last step.
pub fn next_stage(request: &Request, stage: &Stage, event: &Event) -> (r: Transition)
    ensures
        r.deep_view() == next_stage_spec(request.deep_view(), stage.deep_view(), event.deep_view()),
        r.deep_view() matches TransitionView::Go(next) ==> sound_stage(next),
{
    match (stage, event) {
        (Stage::Tags, Event::Exited { stdout: None, .. }) => {
            let failure = Failure::new(
                ErrorKind::ToolchainResolution,
                owned("Could not read stdout in UTF-8"),
            ).context(
                owned("Figuring out the appropriate tag for requested tree-sitter version"),
            );
            assert(failure.deep_view().chain =~= unreadable_listing().chain);
            Transition::Fail(failure)
        },
        (Stage::Tags, Event::Exited { stdout: Some(listing), .. }) => {
            match tag(listing.as_str(), request.version.as_str(), request.repo.as_str()) {
                Ok(found) => Transition::Go(Stage::Cli { tag: found }),
                Err(failure) => Transition::Fail(
                    failure.context(
                        owned(
                            "Figuring out the appropriate tag for requested tree-sitter version",
                        ),
                    ),
                ),
            }
        },
        (Stage::Cli { tag }, Event::Exists(true)) => Transition::Go(
            Stage::Sources { tag: tag.clone() },
        ),
        (Stage::Cli { tag }, Event::Exists(false)) => Transition::Go(
            Stage::Curl { tag: tag.clone() },
        ),
        (Stage::Curl { tag }, Event::Located(Some(program))) => download_stage(
            request,
            tag,
            program,
        ),
        (Stage::Curl { tag }, Event::Located(None)) => Transition::Go(
            Stage::Wget { tag: tag.clone() },
        ),
        (Stage::Wget { tag }, Event::Located(Some(program))) => download_stage(
            request,
            tag,
            program,
        ),
        (Stage::Wget { .. }, Event::Located(None)) => {
            let failure = Failure::new(
                ErrorKind::Transfer,
                owned("No transfer tool available"),
            ).context(owned("Finding curl or wget on your system.")).context(
                owned("Fetching tree-sitter cli for requested platform"),
            );
            assert(failure.deep_view().chain =~= no_transfer_tool().chain);
            Transition::Fail(failure)
        },
        (Stage::Download { tag, .. }, Event::Exited { .. }) => Transition::Go(
            Stage::Sources { tag: tag.clone() },
        ),
        (Stage::Sources { tag }, Event::Exists(exists)) => Transition::Go(
            Stage::Library { tag: tag.clone(), exists: *exists },
        ),
        (Stage::Library { tag, .. }, Event::Exited { .. }) => Transition::Go(
            Stage::Artifact { tag: tag.clone() },
        ),
        (Stage::Artifact { tag }, Event::Exists(true)) => Transition::Go(
            Stage::Remove { tag: tag.clone() },
        ),
        (Stage::Artifact { tag }, Event::Exists(false)) => {
            if request.fresh {
                Transition::Go(Stage::Anomaly { tag: tag.clone() })
            } else {
                Transition::Go(Stage::Finish { tag: tag.clone() })
            }
        },
        (Stage::Remove { tag }, Event::Done) => Transition::Go(Stage::Finish { tag: tag.clone() }),
        (Stage::Anomaly { tag }, Event::Done) => Transition::Go(
            Stage::Finish { tag: tag.clone() },
        ),
        (Stage::Finish { tag }, Event::Done) => Transition::Done(
            ToolchainHandle {
                tag: tag.clone(),
                executable: cli_path(request.build_dir.as_str(), request.platform.as_str()),
                library: library_path(
                    request.build_dir.as_str(),
                    request.build_static,
                    request.host,
                ),
            },
        ),
        _ => Transition::Fail(Failure::new(ErrorKind::Build, owned("Unexpected answer"))),
    }
}

/// The acquisition of the toolchain: a run through the stages, one step at
/// a time. The caller takes the pending step and hands back what came of it.
pub struct Acquisition {
    request: Request,
    stage: Stage,
    course: Course,
    result: Option<Result<ToolchainHandle, Failure>>,
}

/// The view of how an acquisition ended.
pub open spec fn result_view(result: Option<Result<ToolchainHandle, Failure>>) -> Option<
    Result<ToolchainHandleView, FailureView>,
> {
    match result {
        None => None,
        Some(Ok(handle)) => Some(Ok(handle.deep_view())),
        Some(Err(failure)) => Some(Err(failure.deep_view())),
    }
}

impl Acquisition {
    #[verifier::type_invariant]
    spec fn well_formed(self) -> bool {
        &&& self.course.steps() == stage_steps_spec(
            self.request.deep_view(),
            self.stage.deep_view(),
        )
        &&& self.result is None ==> self.course.failure() is None && 0 <= self.course.position()
            < self.course.steps().len()
        &&& sound_stage(self.stage.deep_view())
    }

    /// What is asked for.
    pub closed spec fn request(self) -> RequestView {
        self.request.deep_view()
    }

    /// The stage that the acquisition is in.
    pub closed spec fn stage(self) -> StageView {
        self.stage.deep_view()
    }

    /// How many steps of the stage went well.
    pub closed spec fn position(self) -> int {
        self.course.position()
    }

    /// How the acquisition ended, once it has.
    pub closed spec fn result(self) -> Option<Result<ToolchainHandleView, FailureView>> {
        result_view(self.result)
    }

    /// The steps of the stage that the acquisition is in.
    pub open spec fn steps(self) -> Seq<StepView> {
        stage_steps_spec(self.request(), self.stage())
    }

    fn enter(request: Request, stage: Stage) -> (r: Acquisition)
        requires
            sound_stage(stage.deep_view()),
        ensures
            r.request() == request.deep_view(),
            r.stage() == stage.deep_view(),
            r.position() == 0,
            r.result() is None,
    {
        let steps = stage_steps(&request, &stage);
        let course = Course::new(steps);
        Acquisition { request, stage, course, result: None }
    }

    /// An acquisition that has not begun: it stands before the first step of
    /// the first stage.
    pub fn new(request: Request) -> (r: Acquisition)
        ensures
            r.request() == request.deep_view(),
            r.stage() == StageView::Tags,
            r.position() == 0,
            r.result() is None,
    {
        Acquisition::enter(request, Stage::Tags)
    }

    /// The step to take next, unless the acquisition has ended.
    pub fn pending(&self) -> (r: Option<&Step>)
        ensures
            sound_stage(self.stage()),
            match r {
                Some(step) => self.result() is None && 0 <= self.position() < self.steps().len()
                    && step.deep_view() == self.steps()[self.position()],
                None => self.result() is Some,
            },
    {
        proof {
            use_type_invariant(self);
        }
        match &self.result {
            Some(_) => None,
            None => self.course.pending(),
        }
    }

    /// Takes note of what came of the pending step.
    ///
    /// A step that did not go well ends the acquisition with the step's
    /// error, to whose chain the stage adds what it was done for, as an
    /// error of the stage's kind. A step that
    /// went well is followed by the next step of the stage, and the last
    /// step of a stage by what [`next_stage_spec`] says. An acquisition that
    /// has ended stays as it is.
    pub fn record(self, event: &Event) -> (r: Acquisition)
        ensures
            r.request() == self.request(),
            self.result() is Some ==> r.stage() == self.stage() && r.position() == self.position()
                && r.result() == self.result(),
            self.result() is None ==> 0 <= self.position() < self.steps().len() && match judge_spec(
                self.steps()[self.position()],
                event.deep_view(),
            ) {
                Some(failure) => r.result() == Some(
                    Err::<ToolchainHandleView, FailureView>(
                        stage_failure(failure, self.stage()),
                    ),
                ),
                None => if self.position() + 1 < self.steps().len() {
                    &&& r.stage() == self.stage()
                    &&& r.position() == self.position() + 1
                    &&& r.result() is None
                } else {
                    match next_stage_spec(self.request(), self.stage(), event.deep_view()) {
                        TransitionView::Go(stage) => {
                            &&& r.stage() == stage
                            &&& r.position() == 0
                            &&& r.result() is None
                        },
                        TransitionView::Fail(failure) => r.result() == Some(
                            Err::<ToolchainHandleView, FailureView>(failure),
                        ),
                        TransitionView::Done(handle) => r.result() == Some(
                            Ok::<ToolchainHandleView, FailureView>(handle),
                        ),
                    }
                },
            },
    {
        proof {
            use_type_invariant(&self);
        }
        let Acquisition { request, stage, course, result } = self;
        if result.is_some() {
            return Acquisition { request, stage, course, result };
        }
        let mut course = course;
        course.record(event);
        match course.outcome() {
            None => Acquisition { request, stage, course, result: None },
            Some(Err(failure)) => {
                let context = match &stage {
                    Stage::Tags => owned(
                        "Figuring out the appropriate tag for requested tree-sitter version",
                    ),
                    Stage::Cli { .. } | Stage::Curl { .. } | Stage::Wget { .. } | Stage::Download {
                        ..
                    } => owned("Fetching tree-sitter cli for requested platform"),
                    Stage::Sources { .. } | Stage::Library { .. } => owned(
                        "Cloning and building tree-sitter",
                    ),
                    _ => owned("Enforcing the link mode"),
                };
                let kind = match &stage {
                    Stage::Tags => ErrorKind::ToolchainResolution,
                    Stage::Cli { .. } | Stage::Curl { .. } | Stage::Wget { .. } | Stage::Download {
                        ..
                    } => ErrorKind::Transfer,
                    _ => ErrorKind::Build,
                };
                let with_stage = failure.context(context);
                let failure = Failure { kind, chain: with_stage.chain };
                Acquisition { request, stage, course, result: Some(Err(failure)) }
            },
            Some(Ok(_)) => match next_stage(&request, &stage, event) {
                Transition::Go(next) => Acquisition::enter(request, next),
                Transition::Fail(failure) => Acquisition {
                    request,
                    stage,
                    course,
                    result: Some(Err(failure)),
                },
                Transition::Done(handle) => Acquisition {
                    request,
                    stage,
                    course,
                    result: Some(Ok(handle)),
                },
            },
        }
    }

    /// How the acquisition ended, once it has.
    pub fn outcome(&self) -> (r: Option<Result<ToolchainHandle, Failure>>)
        ensures
            result_view(r) == self.result(),
    {
        match &self.result {
            None => None,
            Some(Ok(handle)) => Some(
                Ok(
                    ToolchainHandle {
                        tag: handle.tag.clone(),
                        executable: handle.executable.clone(),
                        library: handle.library.clone(),
                    },
                ),
            ),
            Some(Err(failure)) => Some(Err(failure.duplicate())),
        }
    }
}

/// Starts the acquisition of the toolchain that a configuration asks for.
pub fn build(args: &BuildCommand, host: HostOs) -> (r: Acquisition)
    ensures
        r.request() == Request::new_spec(args.deep_view(), host),
        r.stage() == StageView::Tags,
        r.position() == 0,
        r.result() is None,
{
    Acquisition::new(Request::new(args, host))
}

/// How many steps of progress a list of steps reports.
pub open spec fn reported(steps: Seq<StepView>) -> int
    decreases steps.len(),
{
    if steps.len() == 0 {
        0
    } else {
        reported(steps.drop_last()) + match steps.last().action {
            ActionView::Report { delta, .. } => delta as int,
            _ => 0,
        }
    }
}

/// How many steps of progress are reported before a stage is entered.
pub open spec fn reported_before(stage: StageView) -> int {
    match stage {
        StageView::Tags => 0,
        StageView::Cli { .. } => 1,
        StageView::Curl { .. } | StageView::Wget { .. } | StageView::Download { .. } => 2,
        StageView::Sources { .. } => 2,
        _ => 3,
    }
}

/// Whether a step leaves every file as it is.
pub open spec fn writes_nothing(step: StepView) -> bool {
    step.action is Report || step.action is Warn || step.action is Probe
}

/// Whether a stage is entered only once the library of the other link mode
/// is known not to be there.
pub open spec fn cleared(stage: StageView) -> bool {
    stage is Finish || stage is Anomaly
}

proof fn lemma_reported_push(steps: Seq<StepView>, step: StepView)
    ensures
        reported(steps.push(step)) == reported(steps) + match step.action {
            ActionView::Report { delta, .. } => delta as int,
            _ => 0,
        },
{
    assert(steps.push(step).drop_last() =~= steps);
}

proof fn lemma_reported_one(step: StepView)
    ensures
        reported(seq![step]) == match step.action {
            ActionView::Report { delta, .. } => delta as int,
            _ => 0,
        },
{
    assert(seq![step].drop_last() =~= Seq::<StepView>::empty());
    assert(reported(Seq::<StepView>::empty()) == 0);
}

proof fn lemma_reported_two(first: StepView, second: StepView)
    ensures
        reported(seq![first, second]) == reported(seq![first]) + reported(seq![second]),
{
    lemma_reported_one(first);
    lemma_reported_one(second);
    lemma_reported_push(seq![first], second);
    assert(seq![first].push(second) =~= seq![first, second]);
}

proof fn lemma_clone_reports_nothing(
    repo: Seq<char>,
    git_ref: Seq<char>,
    local: Seq<char>,
    exists: bool,
)
    ensures
        reported(clone_steps(repo, git_ref, local, exists)) == 0,
{
    let prepare = crate::git::prepare_steps(repo, local, exists);
    let fetch = crate::git::fetch_steps(git_ref, local);
    if exists {
        lemma_reported_one(prepare[0]);
        assert(prepare =~= seq![prepare[0]]);
    } else {
        lemma_reported_one(prepare[0]);
        lemma_reported_push(seq![prepare[0]], prepare[1]);
        lemma_reported_push(seq![prepare[0]].push(prepare[1]), prepare[2]);
        assert(seq![prepare[0]].push(prepare[1]).push(prepare[2]) =~= prepare);
    }
    lemma_reported_push(prepare, fetch[0]);
    lemma_reported_push(prepare.push(fetch[0]), fetch[1]);
    assert(prepare.push(fetch[0]).push(fetch[1]) =~= clone_steps(repo, git_ref, local, exists));
}

/// How many steps of progress the steps of a stage report: one in each of the
/// four stages that begin or end a part of the acquisition, none in any other.
pub proof fn lemma_stage_reports(request: RequestView, stage: StageView)
    requires
        sound_stage(stage),
    ensures
        reported(stage_steps_spec(request, stage)) == if stage is Tags || stage is Cli
            || stage is Sources || stage is Finish {
            1int
        } else {
            0int
        },
{
    let steps = stage_steps_spec(request, stage);
    match stage {
        StageView::Tags | StageView::Cli { .. } | StageView::Sources { .. } => {
            lemma_reported_two(steps[0], steps[1]);
            lemma_reported_one(steps[0]);
            lemma_reported_one(steps[1]);
            assert(steps =~= seq![steps[0], steps[1]]);
        },
        StageView::Download { .. } => {
            lemma_reported_one(steps[0]);
            lemma_reported_push(seq![steps[0]], steps[1]);
            lemma_reported_push(seq![steps[0]].push(steps[1]), steps[2]);
            assert(seq![steps[0]].push(steps[1]).push(steps[2]) =~= steps);
        },
        StageView::Library { tag, exists } => {
            let cloned = clone_steps(request.repo, tag, source_dir_spec(request.build_dir), exists);
            lemma_clone_reports_nothing(
                request.repo,
                tag,
                source_dir_spec(request.build_dir),
                exists,
            );
            lemma_reported_push(cloned, steps.last());
        },
        _ => {
            lemma_reported_one(steps[0]);
            assert(steps =~= seq![steps[0]]);
        },
    }
}

/// Progress comes in four steps: along every transition what is reported
/// before the next stage is what was reported before this one and in it, and
/// an acquisition that ends well has reported four steps.
pub proof fn lemma_four_steps_of_progress(request: RequestView, stage: StageView, event: EventView)
    requires
        sound_stage(stage),
    ensures
        match next_stage_spec(request, stage, event) {
            TransitionView::Go(next) => {
                &&& reported_before(next) == reported_before(stage) + reported(
                    stage_steps_spec(request, stage),
                )
                &&& sound_stage(next)
            },
            TransitionView::Done(_) => reported_before(stage) + reported(
                stage_steps_spec(request, stage),
            ) == STAGE_STEPS,
            TransitionView::Fail(_) => true,
        },
{
    lemma_stage_reports(request, stage);
}

/// Link-mode enforcement: an acquisition ends well only from a stage that is
/// entered once the library of the other link mode is known not to be there,
/// because it was looked for and not found, or because it was removed; and
/// from then on no step of the acquisition writes a file.
pub proof fn lemma_link_mode_enforced(request: RequestView, stage: StageView, event: EventView)
    ensures
        ({
            let stale = stale_path_spec(request.build_dir, request.build_static, request.host);
            match next_stage_spec(request, stage, event) {
                TransitionView::Done(handle) => cleared(stage) && handle.library != stale,
                TransitionView::Go(next) => cleared(next) ==> {
                    ||| stage is Artifact && event == EventView::Exists(false)
                        && stage_steps_spec(request, stage).last().action
                        == (ActionView::Probe { path: stale })
                    ||| stage is Remove && event == EventView::Done && stage_steps_spec(
                        request,
                        stage,
                    ).last().action == (ActionView::Remove { path: stale })
                    ||| cleared(stage)
                },
                TransitionView::Fail(_) => true,
            }
        }),
        cleared(stage) ==> forall|k: int|
            0 <= k < stage_steps_spec(request, stage).len() ==> writes_nothing(
                #[trigger] stage_steps_spec(request, stage)[k],
            ),
{
    crate::tree_sitter::lemma_stale_is_not_library(
        request.build_dir,
        request.build_static,
        request.host,
    );
}

/// An acquisition fails with an error of resolution, of transfer or of
/// building, and with no other: both where a step of a stage does not go
/// well and where the answer to a stage's last step ends it.
pub proof fn lemma_acquisition_errors(
    request: RequestView,
    stage: StageView,
    event: EventView,
    failure: FailureView,
)
    ensures
        ({
            let kind = stage_failure(failure, stage).kind;
            kind == ErrorKind::ToolchainResolution || kind == ErrorKind::Transfer || kind
                == ErrorKind::Build
        }),
        next_stage_spec(request, stage, event) matches TransitionView::Fail(end) ==> end.kind
            == ErrorKind::ToolchainResolution || end.kind == ErrorKind::Transfer || end.kind
            == ErrorKind::Build,
{
}

} // verus!
