use tsp::sh::{self, ErrorKind, Failure, Invocation, Status};
use tsp::steps::{self, Action, Course, Event, Step};

fn strings(items: &[&str]) -> Vec<String> {
    items.iter().map(|s| s.to_string()).collect()
}

#[test]
fn handle_exec_tells_success_exit_and_signal_apart() {
    assert_eq!(sh::handle_exec(Status::Success, "git"), Ok(()));
    assert_eq!(
        sh::handle_exec(Status::Exit(128), "git"),
        Err("\"git\" failed with exit status 128.".to_string())
    );
    assert_eq!(
        sh::handle_exec(Status::Exit(-1), "make"),
        Err("\"make\" failed with exit status -1.".to_string())
    );
    assert_eq!(
        sh::handle_exec(Status::Signal(9), "make"),
        Err("\"make\" interrupted by signal 9.".to_string())
    );
}

#[test]
fn display_cmd_shows_directory_program_and_arguments() {
    assert_eq!(
        sh::display_cmd("git", &strings(&["reset", "--hard", "HEAD"]), Some("tmp/rust")),
        "[tmp/rust] git reset --hard HEAD"
    );
    assert_eq!(sh::display_cmd("make", &strings(&["-C", "src"]), None), "make -C src");
    assert_eq!(sh::display_cmd("true", &strings(&[]), None), "true ");
    let inv = Invocation::new_at("d", "p", strings(&["a"]));
    assert_eq!(inv.display(), "[d] p a");
    assert_eq!(inv.duplicate(), inv);
    assert_eq!(Invocation::new("p", strings(&["a"])).at, None);
}

#[test]
fn download_picks_arguments_by_tool() {
    assert_eq!(
        sh::download("/usr/bin/curl", "out.gz", "https://x/y"),
        Ok(Invocation {
            program: "/usr/bin/curl".to_string(),
            args: strings(&["-o", "out.gz", "-L", "https://x/y"]),
            at: None,
        })
    );
    assert_eq!(
        sh::download("wget", "out.gz", "https://x/y"),
        Ok(Invocation {
            program: "wget".to_string(),
            args: strings(&["-O", "out.gz", "https://x/y"]),
            at: None,
        })
    );
    assert_eq!(
        sh::download("/bin/fetch", "o", "u"),
        Err(Failure {
            kind: ErrorKind::Transfer,
            chain: strings(&["Unknown program /bin/fetch"]),
        })
    );
    assert!(sh::download("", "o", "u").is_err());
}

#[test]
fn small_commands() {
    assert_eq!(sh::gunzip("a.gz"), Invocation::new("gunzip", strings(&["a.gz"])));
    assert_eq!(sh::chmod_x("bin/x"), Invocation::new("chmod", strings(&["+x", "bin/x"])));
    assert_eq!(sh::which("curl"), Invocation::new("which", strings(&["curl"])));
    assert_eq!(sh::which_path("/usr/bin/curl\n"), Some("/usr/bin/curl".to_string()));
    assert_eq!(sh::which_path("\n"), None);
    assert_eq!(sh::which_path(""), None);
    assert_eq!(sh::which_path("\u{a0}/bin/x\u{3000}\u{85}"), Some("/bin/x".to_string()));
    assert_eq!(
        sh::located(Status::Success, Some("/usr/bin/curl\n")),
        Some("/usr/bin/curl".to_string())
    );
    assert_eq!(sh::located(Status::Exit(1), Some("/usr/bin/curl\n")), None);
    assert_eq!(sh::located(Status::Signal(2), Some("x")), None);
    assert_eq!(sh::located(Status::Success, Some(" \n")), None);
    assert_eq!(sh::located(Status::Success, None), None);
    assert_eq!(sh::strings1("a"), strings(&["a"]));
    assert_eq!(sh::strings2("a", "b"), strings(&["a", "b"]));
    assert_eq!(sh::strings3("a", "b", "c"), strings(&["a", "b", "c"]));
    assert_eq!(sh::strings4("a", "b", "c", "d"), strings(&["a", "b", "c", "d"]));
    assert_eq!(sh::strings5("a", "b", "c", "d", "e"), strings(&["a", "b", "c", "d", "e"]));
}

#[test]
fn failure_chain_grows_outwards() {
    let f = Failure::new(ErrorKind::Build, "cause".to_string())
        .context("inner".to_string())
        .context("outer".to_string());
    assert_eq!(f.kind, ErrorKind::Build);
    assert_eq!(f.chain, strings(&["cause", "inner", "outer"]));
    assert_eq!(f.to_text(), "cause\ninner\nouter");
    assert_eq!(f.duplicate(), f);
}

fn run_step(program: &str) -> Step {
    Step {
        action: Action::Run(Invocation::new_at("dir", program, strings(&["x"]))),
        context: "doing x".to_string(),
        kind: ErrorKind::SourceFetch,
    }
}

#[test]
fn judge_accepts_what_answers_the_action() {
    let ok = Event::Exited { status: Status::Success, stdout: Some(String::new()), stderr: None };
    assert_eq!(steps::judge(&run_step("git"), &ok), Ok(()));
    let probe = Step {
        action: Action::Probe { path: "p".to_string() },
        context: "c".to_string(),
        kind: ErrorKind::Build,
    };
    assert_eq!(steps::judge(&probe, &Event::Exists(false)), Ok(()));
    assert_eq!(steps::judge(&probe, &Event::Exists(true)), Ok(()));
    for action in [
        Action::MakeDir { path: "p".to_string() },
        Action::Remove { path: "p".to_string() },
        Action::RemoveTree { path: "p".to_string() },
        Action::Report { delta: 1, message: "m".to_string() },
        Action::Warn { message: "m".to_string() },
    ] {
        let step = Step { action, context: "c".to_string(), kind: ErrorKind::Build };
        assert_eq!(steps::judge(&step, &Event::Done), Ok(()));
        assert_eq!(step.clone_step(), step);
    }
    let locate = Step {
        action: Action::Locate { program: "curl".to_string() },
        context: "c".to_string(),
        kind: ErrorKind::Transfer,
    };
    assert_eq!(steps::judge(&locate, &Event::Located(None)), Ok(()));
}

#[test]
fn judge_builds_the_chain_of_a_failure() {
    let exit = Event::Exited { status: Status::Exit(2), stdout: Some(String::new()), stderr: None };
    assert_eq!(
        steps::judge(&run_step("git"), &exit),
        Err(Failure {
            kind: ErrorKind::SourceFetch,
            chain: strings(&["\"git\" failed with exit status 2.", "doing x"]),
        })
    );
    let signal = Event::Exited { status: Status::Signal(15), stdout: Some(String::new()), stderr: None };
    assert_eq!(
        steps::judge(&run_step("git"), &signal),
        Err(Failure {
            kind: ErrorKind::SourceFetch,
            chain: strings(&["\"git\" interrupted by signal 15.", "doing x"]),
        })
    );
    assert_eq!(
        steps::judge(&run_step("git"), &Event::Failed("No such file".to_string())),
        Err(Failure {
            kind: ErrorKind::SourceFetch,
            chain: strings(&["No such file", "exec [dir] git x.", "doing x"]),
        })
    );
    let probe = Step {
        action: Action::Probe { path: "p".to_string() },
        context: "looking".to_string(),
        kind: ErrorKind::Build,
    };
    assert_eq!(
        steps::judge(&probe, &Event::Failed("denied".to_string())),
        Err(Failure { kind: ErrorKind::Build, chain: strings(&["denied", "looking"]) })
    );
    assert_eq!(
        steps::judge(&probe, &Event::Done),
        Err(Failure { kind: ErrorKind::Build, chain: strings(&["Unexpected answer", "looking"]) })
    );
}

#[test]
fn course_stops_at_the_first_failure() {
    let ok = Event::Exited { status: Status::Success, stdout: Some(String::new()), stderr: None };
    let bad = Event::Exited { status: Status::Exit(1), stdout: Some(String::new()), stderr: None };
    let mut course = Course::new(vec![run_step("a"), run_step("b"), run_step("c")]);
    assert_eq!(course.outcome(), None);
    assert_eq!(course.pending(), Some(&run_step("a")));
    course.record(&ok);
    assert_eq!(course.pending(), Some(&run_step("b")));
    course.record(&bad);
    assert_eq!(course.pending(), None);
    let failure = Failure {
        kind: ErrorKind::SourceFetch,
        chain: strings(&["\"b\" failed with exit status 1.", "doing x"]),
    };
    assert_eq!(course.outcome(), Some(Err(failure.clone())));
    course.record(&ok);
    assert_eq!(course.outcome(), Some(Err(failure)));

    let mut done = Course::new(vec![run_step("a")]);
    done.record(&ok);
    assert_eq!(done.pending(), None);
    assert_eq!(done.outcome(), Some(Ok(())));
    done.record(&bad);
    assert_eq!(done.outcome(), Some(Ok(())));
    assert_eq!(Course::new(vec![]).outcome(), Some(Ok(())));
}

#[test]
fn exec_gives_the_output_or_the_error() {
    let args = strings(&["column", "--mode=always"]);
    let ok = Event::Exited { status: Status::Success, stdout: Some("a  b\n".to_string()), stderr: None };
    assert_eq!(steps::exec("git", &args, &ok), Ok("a  b\n".to_string()));
    let exit = Event::Exited { status: Status::Exit(3), stdout: Some("ignored".to_string()), stderr: None };
    assert_eq!(
        steps::exec("git", &args, &exit),
        Err(Failure { kind: ErrorKind::Build, chain: strings(&["\"git\" failed with exit status 3."]) })
    );
    assert_eq!(
        steps::exec("git", &args, &Event::Failed("not found".to_string())),
        Err(Failure {
            kind: ErrorKind::Build,
            chain: strings(&["not found", "exec git column --mode=always."]),
        })
    );
    assert_eq!(
        steps::exec_at("dir", "git", &args, &Event::Failed("not found".to_string())),
        Err(Failure {
            kind: ErrorKind::Build,
            chain: strings(&["not found", "exec [dir] git column --mode=always."]),
        })
    );
    assert_eq!(steps::exec_at("dir", "git", &args, &ok), Ok("a  b\n".to_string()));
    assert_eq!(
        steps::exec("git", &args, &Event::Exited { status: Status::Success, stdout: None, stderr: None }),
        Err(Failure { kind: ErrorKind::Build, chain: strings(&["Could not read stdout in UTF-8"]) })
    );
    assert_eq!(
        steps::exec("git", &args, &Event::Done),
        Err(Failure { kind: ErrorKind::Build, chain: strings(&["Unexpected answer"]) })
    );
}
