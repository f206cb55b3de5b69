use tsp::git;
use tsp::sh::{ErrorKind, Invocation};
use tsp::steps::{Action, Step};

fn strings(items: &[&str]) -> Vec<String> {
    items.iter().map(|s| s.to_string()).collect()
}

fn git_step(args: &[&str], context: &str) -> Step {
    Step {
        action: Action::Run(Invocation {
            program: "git".to_string(),
            args: strings(args),
            at: Some("tmp/rust".to_string()),
        }),
        context: context.to_string(),
        kind: ErrorKind::SourceFetch,
    }
}

#[test]
fn clone_into_a_new_directory() {
    let steps = git::clone_fast("https://example.org/rust", "v1", "tmp/rust", false);
    assert_eq!(
        steps,
        vec![
            Step {
                action: Action::MakeDir { path: "tmp/rust".to_string() },
                context: "Creating local https://example.org/rust clone dir".to_string(),
                kind: ErrorKind::SourceFetch,
            },
            git_step(&["init"], "git -C \"tmp/rust\" init"),
            git_step(
                &["remote", "add", "origin", "https://example.org/rust"],
                "git remote add origin https://example.org/rust"
            ),
            git_step(&["fetch", "origin", "--depth", "1", "v1"], "git fetch origin --depth 1 v1"),
            git_step(&["reset", "--hard", "FETCH_HEAD"], "git reset --hard FETCH_HEAD"),
        ]
    );
}

#[test]
fn clone_into_an_existing_directory() {
    let steps = git::clone_fast("https://example.org/rust", "v1", "tmp/rust", true);
    assert_eq!(
        steps,
        vec![
            git_step(&["reset", "--hard", "HEAD"], "git reset --hard HEAD"),
            git_step(&["fetch", "origin", "--depth", "1", "v1"], "git fetch origin --depth 1 v1"),
            git_step(&["reset", "--hard", "FETCH_HEAD"], "git reset --hard FETCH_HEAD"),
        ]
    );
}

#[test]
fn second_clone_adds_no_remote() {
    let first = git::clone_fast("r", "HEAD", "d", false);
    let second = git::clone_fast("r", "HEAD", "d", true);
    let adds = |steps: &Vec<Step>| {
        steps
            .iter()
            .filter(|s| matches!(&s.action, Action::Run(i) if i.args.first().map(|a| a.as_str()) == Some("remote")))
            .count()
    };
    assert_eq!(adds(&first), 1);
    assert_eq!(adds(&second), 0);
    assert_eq!(first[first.len() - 2..], second[second.len() - 2..]);
    assert_eq!(git::clone_fast("r", "HEAD", "d", true), second);
}

#[test]
fn probe_and_column() {
    assert_eq!(
        git::clone_probe("tmp/rust"),
        Step {
            action: Action::Probe { path: "tmp/rust".to_string() },
            context: "Checking if tree-sitter sources exist".to_string(),
            kind: ErrorKind::SourceFetch,
        }
    );
    assert_eq!(
        git::column("  ", 80),
        Invocation {
            program: "git".to_string(),
            args: strings(&["column", "--mode=always", "--indent=  ", "--width=80"]),
            at: None,
        }
    );
}
