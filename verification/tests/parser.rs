use tsp::cli::{BuildCommand, ParserConfig};
use tsp::parser::{self, BuildTask};

fn strings(items: &[&str]) -> Vec<String> {
    items.iter().map(|s| s.to_string()).collect()
}

fn configured() -> BuildCommand {
    let mut args = BuildCommand::with_jobs(2);
    args.parsers = Some(vec![
        ("rust".to_string(), ParserConfig::Ref("v0.21.2".to_string())),
        (
            "php".to_string(),
            ParserConfig::Full {
                git_ref: "main".to_string(),
                from: Some("https://example.org/php".to_string()),
                parsers: Some(strings(&["php", "php_only"])),
            },
        ),
        (
            "zig".to_string(),
            ParserConfig::Full { git_ref: "abc".to_string(), from: None, parsers: None },
        ),
        ("rust".to_string(), ParserConfig::Ref("shadowed".to_string())),
    ]);
    args
}

#[test]
fn default_repo_is_below_the_base() {
    assert_eq!(parser::default_repo("rust"), "https://github.com/tree-sitter/rust");
    assert_eq!(parser::default_repo(""), "https://github.com/tree-sitter/");
}

#[test]
fn coordinates_of_an_unconfigured_target_are_the_defaults() {
    let args = BuildCommand::with_jobs(1);
    assert_eq!(
        parser::parser_coordinates(&args, "go".to_string()),
        ("HEAD".to_string(), "https://github.com/tree-sitter/go".to_string(), strings(&["go"]))
    );
    assert_eq!(
        parser::parser_coordinates(&configured(), "go".to_string()),
        ("HEAD".to_string(), "https://github.com/tree-sitter/go".to_string(), strings(&["go"]))
    );
}

#[test]
fn coordinates_of_configured_targets() {
    let args = configured();
    assert_eq!(
        parser::parser_coordinates(&args, "rust".to_string()),
        (
            "v0.21.2".to_string(),
            "https://github.com/tree-sitter/rust".to_string(),
            strings(&["rust"])
        )
    );
    assert_eq!(
        parser::parser_coordinates(&args, "php".to_string()),
        ("main".to_string(), "https://example.org/php".to_string(), strings(&["php", "php_only"]))
    );
    assert_eq!(
        parser::parser_coordinates(&args, "zig".to_string()),
        ("abc".to_string(), "https://github.com/tree-sitter/zig".to_string(), strings(&["zig"]))
    );
    assert!(parser::lookup_parser(&args, "nope").is_none());
    assert_eq!(parser::lookup_parser(&args, "rust"), Some(&ParserConfig::Ref("v0.21.2".to_string())));
}

#[test]
fn requested_targets_are_built_once() {
    let mut args = BuildCommand::with_jobs(1);
    args.languages = Some(strings(&["rust", "ruby", "rust"]));
    assert_eq!(parser::requested_languages(&args), strings(&["rust", "ruby"]));
    let tasks = parser::build_tasks(&args);
    assert_eq!(tasks.len(), 2);
    assert_eq!(tasks[0].name, "rust");
    assert_eq!(tasks[1].name, "ruby");
}

#[test]
fn no_request_means_every_configured_target() {
    let mut args = configured();
    assert_eq!(parser::requested_languages(&args), strings(&["rust", "php", "zig"]));
    args.languages = Some(vec![]);
    assert_eq!(parser::requested_languages(&args), strings(&["rust", "php", "zig"]));
    args.languages = Some(strings(&["zig"]));
    assert_eq!(parser::requested_languages(&args), strings(&["zig"]));
    let none = BuildCommand::with_jobs(1);
    assert_eq!(parser::requested_languages(&none), Vec::<String>::new());
    assert!(parser::build_tasks(&none).is_empty());
}

#[test]
fn tasks_hold_coordinates_and_directory() {
    let mut args = configured();
    args.build_dir = "work".to_string();
    args.languages = Some(strings(&["php", "go"]));
    assert_eq!(
        parser::build_tasks(&args),
        vec![
            BuildTask {
                name: "php".to_string(),
                git_ref: "main".to_string(),
                repo: "https://example.org/php".to_string(),
                parsers: strings(&["php", "php_only"]),
                dir: "work/php".to_string(),
            },
            BuildTask {
                name: "go".to_string(),
                git_ref: "HEAD".to_string(),
                repo: "https://github.com/tree-sitter/go".to_string(),
                parsers: strings(&["go"]),
                dir: "work/go".to_string(),
            },
        ]
    );
    let task = BuildTask::new(&args, "rust");
    assert_eq!(task.dir, "work/rust");
    assert_eq!(task.duplicate(), task);
}

#[test]
fn well_formed_configurations_name_no_target_twice() {
    assert!(BuildCommand::with_jobs(1).is_well_formed());
    assert!(!BuildCommand::with_jobs(0).is_well_formed());
    assert!(BuildCommand::with_jobs(0).is_named_once());
    let mut args = configured();
    assert!(!args.is_well_formed());
    args.parsers.as_mut().unwrap().pop();
    assert!(args.is_well_formed());
    args.parsers = Some(vec![]);
    assert!(args.is_well_formed());
    let read = tsp::config::resolve(
        Some("[parsers]\nb = \"1\"\na = \"2\"\n"),
        &BuildCommand::with_jobs(1),
        None,
    )
    .unwrap();
    assert!(read.is_well_formed());
}
