use tsp::cli::BuildCommand;
use tsp::sh::{ErrorKind, Failure, Invocation, Status};
use tsp::steps::{Action, Event, Step};
use tsp::toolchain::{self, Acquisition, Request, Stage, ToolchainHandle, Transition};
use tsp::tree_sitter::{self, HostOs};

fn strings(items: &[&str]) -> Vec<String> {
    items.iter().map(|s| s.to_string()).collect()
}

const LISTING: &str = "aaa\trefs/tags/v0.22.5\nbbb\trefs/tags/v0.22.6\nccc\trefs/tags/0.20.0\n";

#[test]
fn tag_resolution_finds_the_one_tag() {
    assert_eq!(tree_sitter::tag(LISTING, "0.22.6", "repo"), Ok("v0.22.6".to_string()));
    assert_eq!(tree_sitter::tag(LISTING, "0.20.0", "repo"), Ok("0.20.0".to_string()));
    assert_eq!(tree_sitter::tag(LISTING, "v0.22.5", "repo"), Ok("v0.22.5".to_string()));
    assert_eq!(
        tree_sitter::remote_tags(LISTING),
        strings(&["v0.22.5", "v0.22.6", "0.20.0"])
    );
}

#[test]
fn tag_resolution_fails_on_a_missing_version() {
    assert_eq!(
        tree_sitter::tag(LISTING, "9.9.9", "https://example.org/ts"),
        Err(Failure {
            kind: ErrorKind::ToolchainResolution,
            chain: strings(&["Finding the requested version 9.9.9 in https://example.org/ts"]),
        })
    );
    assert!(tree_sitter::tag("", "1.0.0", "r").is_err());
}

#[test]
fn tag_resolution_fails_on_an_ambiguous_version() {
    let listing = "a\trefs/tags/1.2.0\nb\trefs/tags/v1.2.0\n";
    assert_eq!(
        tree_sitter::tag(listing, "1.2.0", "repo"),
        Err(Failure {
            kind: ErrorKind::ToolchainResolution,
            chain: strings(&["More than one tag matches the requested version 1.2.0 in repo"]),
        })
    );
    assert_eq!(tree_sitter::tag(listing, "v1.2.0", "repo"), Ok("v1.2.0".to_string()));
    let same_twice = "a\trefs/tags/v1.2.0\nb\trefs/tags/v1.2.0\n";
    assert_eq!(tree_sitter::tag(same_twice, "1.2.0", "repo"), Ok("v1.2.0".to_string()));
}

#[test]
fn tag_is_the_whole_name_behind_refs_tags() {
    let listing = "aaa\trefs/tags/release/1.2.0\nbbb\trefs/heads/1.2.0\nccc\trefs/tags/\n";
    assert_eq!(tree_sitter::remote_tags(listing), strings(&["release/1.2.0"]));
    assert!(tree_sitter::tag(listing, "1.2.0", "repo").is_err());
    assert_eq!(
        tree_sitter::tag(listing, "release/1.2.0", "repo"),
        Ok("release/1.2.0".to_string())
    );
    assert_eq!(tree_sitter::line_tag("aaa\trefs/tags/v1"), Some("v1".to_string()));
    assert_eq!(tree_sitter::line_tag("refs/tags/v1"), Some("v1".to_string()));
    assert_eq!(tree_sitter::line_tag("aaa\trefs/tagsv1"), None);
    assert_eq!(tree_sitter::line_tag("aaa\tv1"), None);
    assert_eq!(tree_sitter::line_tag(""), None);
}

#[test]
fn paths_and_url() {
    assert_eq!(tree_sitter::cli_name("linux-x64"), "tree-sitter-linux-x64");
    assert_eq!(tree_sitter::cli_path("tmp", "linux-x64"), "tmp/tree-sitter-linux-x64");
    assert_eq!(tree_sitter::archive_path("tmp", "linux-x64"), "tmp/tree-sitter-linux-x64.gz");
    assert_eq!(
        tree_sitter::cli_url("https://github.com/tree-sitter/tree-sitter", "v0.22.6", "macos-arm64"),
        "https://github.com/tree-sitter/tree-sitter/releases/download/v0.22.6/tree-sitter-macos-arm64.gz"
    );
    assert_eq!(tree_sitter::source_dir("tmp"), "tmp/tree-sitter");
    assert_eq!(tree_sitter::library_path("tmp", true, HostOs::Linux), "tmp/tree-sitter/libtree-sitter.a");
    assert_eq!(tree_sitter::library_path("tmp", false, HostOs::Linux), "tmp/tree-sitter/libtree-sitter.so");
    assert_eq!(
        tree_sitter::library_path("tmp", false, HostOs::MacOs),
        "tmp/tree-sitter/libtree-sitter.dylib"
    );
    assert_eq!(tree_sitter::stale_path("tmp", true, HostOs::Linux), "tmp/tree-sitter/libtree-sitter.so");
    assert_eq!(tree_sitter::stale_path("tmp", true, HostOs::MacOs), "tmp/tree-sitter/libtree-sitter.dylib");
    assert_eq!(tree_sitter::stale_path("tmp", false, HostOs::MacOs), "tmp/tree-sitter/libtree-sitter.a");
}

#[test]
fn steps_of_the_executable() {
    let run = |program: &str, args: &[&str], context: &str, kind: ErrorKind| Step {
        action: Action::Run(Invocation::new(program, strings(args))),
        context: context.to_string(),
        kind,
    };
    assert_eq!(
        tree_sitter::listing_step("repo"),
        run(
            "git",
            &["ls-remote", "--refs", "--tags", "repo"],
            "Fetching remote tags from repo",
            ErrorKind::ToolchainResolution
        )
    );
    assert_eq!(
        tree_sitter::download_step("curl", "o", "u"),
        Ok(run("curl", &["-o", "o", "-L", "u"], "Downloading tree-sitter-cli", ErrorKind::Transfer))
    );
    assert!(tree_sitter::download_step("ftp", "o", "u").is_err());
    assert_eq!(
        tree_sitter::gunzip_step("a.gz"),
        run("gunzip", &["a.gz"], "Unzipping tree-sitter-cli", ErrorKind::Transfer)
    );
    assert_eq!(
        tree_sitter::chmod_step("a"),
        run("chmod", &["+x", "a"], "chmod +x tree-sitter-cli", ErrorKind::Transfer)
    );
    assert_eq!(
        tree_sitter::make("src"),
        run("make", &["-C", "src"], "Building tree-sitter", ErrorKind::Build)
    );
}

fn request(build_static: bool, fresh: bool) -> Request {
    let mut args = BuildCommand::with_jobs(1);
    args.build_static = build_static;
    args.fresh = fresh;
    args.tree_sitter.platform = "linux-x64".to_string();
    Request::new(&args, HostOs::Linux)
}

fn ok(stdout: &str) -> Event {
    Event::Exited { status: Status::Success, stdout: Some(stdout.to_string()), stderr: None }
}

/// Drives an acquisition, answering each step with `answer`, and collects the actions.
fn drive(mut acq: Acquisition, answer: &dyn Fn(&Action) -> Event) -> (Acquisition, Vec<Action>) {
    let mut actions = Vec::new();
    for _ in 0..100 {
        let action = match acq.pending() {
            Some(step) => step.action.clone(),
            None => break,
        };
        let event = answer(&action);
        actions.push(action);
        acq = acq.record(&event);
    }
    (acq, actions)
}

fn world(cli_there: bool, src_there: bool, stale_there: bool, curl: bool, wget: bool) -> impl Fn(&Action) -> Event {
    move |action: &Action| match action {
        Action::Report { .. } | Action::Warn { .. } => Event::Done,
        Action::Probe { path } => {
            if path.ends_with("tree-sitter-linux-x64") {
                Event::Exists(cli_there)
            } else if path.ends_with("/tree-sitter") {
                Event::Exists(src_there)
            } else {
                Event::Exists(stale_there)
            }
        }
        Action::Locate { program } => {
            if (program == "curl" && curl) || (program == "wget" && wget) {
                Event::Located(Some(format!("/usr/bin/{}", program)))
            } else {
                Event::Located(None)
            }
        }
        Action::Run(invocation) => {
            if invocation.args.first().map(|a| a.as_str()) == Some("ls-remote") {
                ok(LISTING)
            } else {
                ok("")
            }
        }
        Action::MakeDir { .. } | Action::Remove { .. } | Action::RemoveTree { .. } => Event::Done,
    }
}

fn reported(actions: &[Action]) -> u64 {
    actions
        .iter()
        .map(|a| match a {
            Action::Report { delta, .. } => *delta,
            _ => 0,
        })
        .sum()
}

#[test]
fn acquisition_from_nothing_static() {
    let answer = world(false, false, true, true, true);
    let (acq, actions) = drive(Acquisition::new(request(true, false)), &answer);
    assert_eq!(
        acq.outcome(),
        Some(Ok(ToolchainHandle {
            tag: "v0.22.6".to_string(),
            executable: "tmp/tree-sitter-linux-x64".to_string(),
            library: "tmp/tree-sitter/libtree-sitter.a".to_string(),
        }))
    );
    assert_eq!(reported(&actions), 4);
    let programs: Vec<String> = actions
        .iter()
        .filter_map(|a| match a {
            Action::Run(i) => Some(format!("{} {}", i.program, i.args.join(" "))),
            _ => None,
        })
        .collect();
    assert_eq!(
        programs,
        strings(&[
            "git ls-remote --refs --tags https://github.com/tree-sitter/tree-sitter",
            "/usr/bin/curl -o tmp/tree-sitter-linux-x64.gz -L https://github.com/tree-sitter/tree-sitter/releases/download/v0.22.6/tree-sitter-linux-x64.gz",
            "gunzip tmp/tree-sitter-linux-x64.gz",
            "chmod +x tmp/tree-sitter-linux-x64",
            "git init",
            "git remote add origin https://github.com/tree-sitter/tree-sitter",
            "git fetch origin --depth 1 v0.22.6",
            "git reset --hard FETCH_HEAD",
            "make -C tmp/tree-sitter",
        ])
    );
    assert!(actions.contains(&Action::Remove { path: "tmp/tree-sitter/libtree-sitter.so".to_string() }));
    assert!(!actions.contains(&Action::Remove { path: "tmp/tree-sitter/libtree-sitter.a".to_string() }));
    let last_remove = actions.iter().rposition(|a| matches!(a, Action::Remove { .. })).unwrap();
    assert!(actions[last_remove + 1..]
        .iter()
        .all(|a| matches!(a, Action::Report { .. } | Action::Warn { .. })));
}

#[test]
fn acquisition_dynamic_removes_the_static_archive() {
    let answer = world(true, true, true, true, true);
    let (acq, actions) = drive(Acquisition::new(request(false, false)), &answer);
    assert_eq!(
        acq.outcome().unwrap().unwrap().library,
        "tmp/tree-sitter/libtree-sitter.so"
    );
    assert!(actions.contains(&Action::Remove { path: "tmp/tree-sitter/libtree-sitter.a".to_string() }));
    assert!(!actions.iter().any(|a| matches!(a, Action::Locate { .. })));
    assert!(!actions.iter().any(|a| matches!(a, Action::Run(i) if i.program == "gunzip")));
    assert!(actions.iter().any(|a| matches!(a, Action::Run(i) if i.args == strings(&["reset", "--hard", "HEAD"]))));
    assert!(!actions.iter().any(|a| matches!(a, Action::Run(i) if i.args == strings(&["init"]))));
    assert_eq!(reported(&actions), 4);
}

#[test]
fn acquisition_notes_a_missing_library_only_in_a_fresh_build() {
    let answer = world(true, true, false, true, true);
    let (fresh, actions) = drive(Acquisition::new(request(true, true)), &answer);
    assert!(matches!(fresh.outcome(), Some(Ok(_))));
    assert!(actions.contains(&Action::Warn {
        message: "Tried to delete tmp/tree-sitter/libtree-sitter.so, but couldn't find it.".to_string()
    }));
    assert!(!actions.iter().any(|a| matches!(a, Action::Remove { .. })));
    let (plain, actions) = drive(Acquisition::new(request(true, false)), &answer);
    assert!(matches!(plain.outcome(), Some(Ok(_))));
    assert!(!actions.iter().any(|a| matches!(a, Action::Warn { .. } | Action::Remove { .. })));
    assert_eq!(reported(&actions), 4);
}

#[test]
fn acquisition_falls_back_to_the_second_tool() {
    let answer = world(false, true, false, false, true);
    let (acq, actions) = drive(Acquisition::new(request(true, false)), &answer);
    assert!(matches!(acq.outcome(), Some(Ok(_))));
    assert!(actions.iter().any(|a| matches!(a, Action::Run(i)
        if i.program == "/usr/bin/wget" && i.args[0] == "-O")));
}

#[test]
fn acquisition_fails_without_a_transfer_tool() {
    let answer = world(false, true, false, false, false);
    let (acq, actions) = drive(Acquisition::new(request(true, false)), &answer);
    assert_eq!(
        acq.outcome(),
        Some(Err(Failure {
            kind: ErrorKind::Transfer,
            chain: strings(&[
                "No transfer tool available",
                "Finding curl or wget on your system.",
                "Fetching tree-sitter cli for requested platform",
            ]),
        }))
    );
    assert!(!actions.iter().any(|a| matches!(a, Action::Run(i) if i.program == "make")));
}

#[test]
fn acquisition_fails_on_an_unresolved_version() {
    let answer = |action: &Action| match action {
        Action::Run(_) => ok("x\trefs/tags/v1.0.0\n"),
        _ => Event::Done,
    };
    let (acq, actions) = drive(Acquisition::new(request(true, false)), &answer);
    assert_eq!(
        acq.outcome(),
        Some(Err(Failure {
            kind: ErrorKind::ToolchainResolution,
            chain: strings(&[
                "Finding the requested version 0.22.6 in https://github.com/tree-sitter/tree-sitter",
                "Figuring out the appropriate tag for requested tree-sitter version",
            ]),
        }))
    );
    assert_eq!(actions.len(), 2);
}

#[test]
fn acquisition_ends_at_the_first_failed_step() {
    let base = world(true, false, true, true, true);
    let answer = move |action: &Action| match action {
        Action::Run(i) if i.program == "make" => {
            Event::Exited { status: Status::Exit(2), stdout: Some(String::new()), stderr: None }
        }
        other => base(other),
    };
    let (acq, actions) = drive(Acquisition::new(request(true, false)), &answer);
    assert_eq!(
        acq.outcome(),
        Some(Err(Failure {
            kind: ErrorKind::Build,
            chain: strings(&[
                "\"make\" failed with exit status 2.",
                "Building tree-sitter",
                "Cloning and building tree-sitter",
            ]),
        }))
    );
    assert!(!actions.iter().any(|a| matches!(a, Action::Remove { .. })));
    let ended = acq.record(&Event::Done);
    assert!(ended.pending().is_none());
    assert!(matches!(ended.outcome(), Some(Err(_))));

    let removal_fails = |action: &Action| match action {
        Action::Remove { .. } => Event::Failed("Permission denied".to_string()),
        other => world(true, true, true, true, true)(other),
    };
    let (acq, _) = drive(Acquisition::new(request(true, false)), &removal_fails);
    assert_eq!(
        acq.outcome(),
        Some(Err(Failure {
            kind: ErrorKind::Build,
            chain: strings(&[
                "Permission denied",
                "Removing tmp/tree-sitter/libtree-sitter.so to force static linking",
                "Enforcing the link mode",
            ]),
        }))
    );
}

#[test]
fn acquisition_fails_with_one_of_three_kinds() {
    let base = world(true, false, true, true, true);
    let fetch_fails = move |action: &Action| match action {
        Action::Run(i) if i.args.first().map(|a| a.as_str()) == Some("fetch") => {
            Event::Exited { status: Status::Exit(128), stdout: Some(String::new()), stderr: None }
        }
        other => base(other),
    };
    let (acq, _) = drive(Acquisition::new(request(true, false)), &fetch_fails);
    assert_eq!(
        acq.outcome(),
        Some(Err(Failure {
            kind: ErrorKind::Build,
            chain: strings(&[
                "\"git\" failed with exit status 128.",
                "git fetch origin --depth 1 v0.22.6",
                "Cloning and building tree-sitter",
            ]),
        }))
    );
    let listing_unreadable = |action: &Action| match action {
        Action::Run(_) => Event::Exited { status: Status::Success, stdout: None, stderr: None },
        _ => Event::Done,
    };
    let (acq, _) = drive(Acquisition::new(request(true, false)), &listing_unreadable);
    assert_eq!(
        acq.outcome(),
        Some(Err(Failure {
            kind: ErrorKind::ToolchainResolution,
            chain: strings(&[
                "Could not read stdout in UTF-8",
                "Figuring out the appropriate tag for requested tree-sitter version",
            ]),
        }))
    );
    let base = world(false, true, true, true, true);
    let download_fails = move |action: &Action| match action {
        Action::Run(i) if i.program == "/usr/bin/curl" => {
            Event::Exited { status: Status::Exit(22), stdout: Some(String::new()), stderr: None }
        }
        other => base(other),
    };
    let (acq, _) = drive(Acquisition::new(request(true, false)), &download_fails);
    assert!(matches!(acq.outcome(), Some(Err(f)) if f.kind == ErrorKind::Transfer));
    assert_eq!(toolchain::STAGE_NAME, "TreeSitter");
    assert_eq!(toolchain::STAGE_STEPS, 4);
}

#[test]
fn build_starts_an_acquisition() {
    let args = BuildCommand::with_jobs(1);
    let acq = toolchain::build(&args, HostOs::MacOs);
    assert_eq!(acq.outcome(), None);
    assert_eq!(
        acq.pending().map(|s| s.action.clone()),
        Some(Action::Report { delta: 1, message: "Figuring out tag from version 0.22.6".to_string() })
    );
}

#[test]
fn stages_and_transitions() {
    let req = request(true, false);
    assert_eq!(req.duplicate(), req);
    let steps = toolchain::stage_steps(&req, &Stage::Curl { tag: "t".to_string() });
    assert_eq!(steps.len(), 1);
    assert_eq!(steps[0].action, Action::Locate { program: "curl".to_string() });
    let next = toolchain::next_stage(&req, &Stage::Cli { tag: "t".to_string() }, &Event::Exists(true));
    assert!(matches!(next, Transition::Go(Stage::Sources { tag }) if tag == "t"));
    let next = toolchain::next_stage(&req, &Stage::Cli { tag: "t".to_string() }, &Event::Exists(false));
    assert!(matches!(next, Transition::Go(Stage::Curl { .. })));
    let next = toolchain::next_stage(
        &req,
        &Stage::Curl { tag: "t".to_string() },
        &Event::Located(Some("/bin/other".to_string())),
    );
    assert!(matches!(next, Transition::Fail(f) if f.chain[0] == "Unknown program /bin/other"));
    let next = toolchain::next_stage(&req, &Stage::Tags, &Event::Done);
    assert!(matches!(next, Transition::Fail(f) if f.chain == strings(&["Unexpected answer"])));
    let next = toolchain::next_stage(&req, &Stage::Finish { tag: "t".to_string() }, &Event::Done);
    assert!(matches!(next, Transition::Done(h) if h.tag == "t"));
}
