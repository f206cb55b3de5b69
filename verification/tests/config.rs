use tsp::cli::{BuildCommand, ConfigCommand, ParserConfig, TreeSitter};
use tsp::config;
use tsp::document::{self, Node};
use tsp::encoding;
use tsp::overrides::{self, OverrideSet};
use tsp::schema::{self, ConfigError};

#[test]
fn current_from_generated_default() {
    let def = BuildCommand::default();
    let generated = config::serialize(&def).unwrap();
    assert_eq!(def, config::current(Some(&generated), None).unwrap());
}

#[test]
fn current_from_empty() {
    let def = BuildCommand::default();
    assert_eq!(def, config::current(Some(""), None).unwrap());
}

#[test]
fn current_preserve_languages() {
    let mut def = BuildCommand::default();
    def.languages = None;
    assert_eq!(def, config::current(Some(""), Some(&set_by(&def))).unwrap());
    def.languages = Some(vec![]);
    assert_eq!(def, config::current(Some(""), Some(&set_by(&def))).unwrap());
    def.languages = Some(vec!["rust".to_string()]);
    assert_eq!(def, config::current(Some(""), Some(&set_by(&def))).unwrap());
    def.languages = Some(vec!["rust".to_string(), "ruby".to_string()]);
    assert_eq!(def, config::current(Some(""), Some(&set_by(&def))).unwrap());
}

#[test]
fn current_default_is_default() {
    let config = r#"
    build-dir = "tmp"
    static = false
    fresh = false
    out = "parsers"
    show-config = false

    [tree-sitter]
    version = "0.22.6"
    repo = "https://github.com/tree-sitter/tree-sitter"
    platform = "macos-arm64"
  "#;
    let def = BuildCommand::default();
    assert_eq!(def, config::current(Some(config), None).unwrap());
    assert_eq!(def, config::current(Some(config), Some(&set_by(&def))).unwrap());
}

#[test]
fn current_overrides_default() {
    let config = r#"
      build-dir = "/root"
      static = true
      fresh = true
      out = "tree-sitter-parsers"
      show-config = true

      [tree-sitter]
      version = "1.0.0"
      repo = "https://gitlab.com/tree-sitter/tree-sitter"
      platform = "linux-arm64"
    "#;
    let def = BuildCommand::default();
    assert_ne!(def, config::current(Some(config), None).unwrap());
    assert_ne!(def, config::current(Some(config), Some(&set_by(&def))).unwrap());
}

/// What a caller set who hands over `command`: what departs from the defaults.
fn set_by(command: &BuildCommand) -> OverrideSet {
    overrides::diff(&BuildCommand::default(), command)
}

fn sample() -> BuildCommand {
    BuildCommand {
        languages: None,
        parsers: Some(vec![
            (
                "php".to_string(),
                ParserConfig::Full {
                    git_ref: "v0.23.0".to_string(),
                    from: Some("https://example.org/php".to_string()),
                    parsers: Some(vec!["php".to_string(), "php_only".to_string()]),
                },
            ),
            ("rust".to_string(), ParserConfig::Ref("v0.21.2".to_string())),
            (
                "zig".to_string(),
                ParserConfig::Full { git_ref: "main".to_string(), from: None, parsers: None },
            ),
        ]),
        build_dir: "/var/build".to_string(),
        build_static: true,
        jobs: 3,
        fresh: true,
        out: "out dir".to_string(),
        show_config: true,
        tree_sitter: TreeSitter {
            version: "1.2.0".to_string(),
            repo: "https://example.org/ts".to_string(),
            platform: "linux-x64".to_string(),
        },
    }
}

#[test]
fn default_has_the_built_in_values() {
    let def = BuildCommand::default();
    assert_eq!(def.languages, None);
    assert_eq!(def.parsers, None);
    assert_eq!(def.build_dir, "tmp");
    assert!(!def.build_static);
    assert!(def.jobs >= 1);
    assert!(!def.fresh);
    assert_eq!(def.out, "parsers");
    assert!(!def.show_config);
    assert_eq!(def.tree_sitter.version, "0.22.6");
    assert_eq!(def.tree_sitter.repo, "https://github.com/tree-sitter/tree-sitter");
    assert_eq!(def.tree_sitter.platform, "macos-arm64");
    assert_eq!(BuildCommand::with_jobs(7).jobs, 7);
    assert_eq!(TreeSitter::default(), def.tree_sitter);
    assert_eq!(ConfigCommand::default(), ConfigCommand::Current);
}

#[test]
fn round_trip_through_text() {
    let def = BuildCommand::default();
    let cfg = sample();
    let text = config::serialize(&cfg).unwrap();
    assert_eq!(cfg, config::resolve(Some(&text), &def, None).unwrap());
}

#[test]
fn round_trip_through_document() {
    let def = BuildCommand::with_jobs(8);
    let cfg = sample();
    let doc = encoding::encode(&cfg).unwrap();
    assert_eq!(cfg, schema::decode(&doc, &def).unwrap());
    assert_eq!(cfg, config::resolve_document(&doc, &def, None).unwrap());
}

#[test]
fn round_trip_loses_requested_targets() {
    let def = BuildCommand::with_jobs(8);
    let mut cfg = sample();
    cfg.languages = Some(vec!["rust".to_string()]);
    let text = config::serialize(&cfg).unwrap();
    let back = config::resolve(Some(&text), &def, None).unwrap();
    assert_eq!(back.languages, None);
    cfg.languages = None;
    assert_eq!(back, cfg);
}

#[test]
fn missing_file_gives_defaults() {
    let def = BuildCommand::with_jobs(5);
    assert_eq!(def, config::resolve(None, &def, None).unwrap());
    let cmd = sample();
    assert_eq!(cmd, config::resolve(None, &def, Some(&overrides::diff(&def, &cmd))).unwrap());
}

#[test]
fn file_goes_over_defaults() {
    let def = BuildCommand::with_jobs(5);
    let text = "jobs = 2\nout = \"elsewhere\"\n[tree-sitter]\nversion = \"9.9.9\"\n";
    let got = config::resolve(Some(text), &def, None).unwrap();
    assert_eq!(got.jobs, 2);
    assert_eq!(got.out, "elsewhere");
    assert_eq!(got.tree_sitter.version, "9.9.9");
    assert_eq!(got.tree_sitter.repo, def.tree_sitter.repo);
    assert_eq!(got.tree_sitter.platform, def.tree_sitter.platform);
    assert_eq!(got.build_dir, def.build_dir);
    assert_eq!(got.build_static, def.build_static);
}

#[test]
fn override_precedence() {
    let def = BuildCommand::with_jobs(5);
    let text = "jobs = 2\nstatic = true\nbuild-dir = \"from-file\"\nout = \"file-out\"\n";
    let mut cmd = BuildCommand::with_jobs(5);
    cmd.jobs = 9;
    cmd.out = "cmd-out".to_string();
    cmd.tree_sitter.platform = "linux-x86".to_string();
    cmd.languages = Some(vec!["go".to_string()]);
    let got = config::resolve(Some(text), &def, Some(&overrides::diff(&def, &cmd))).unwrap();
    assert_eq!(got.jobs, 9);
    assert_eq!(got.out, "cmd-out");
    assert_eq!(got.tree_sitter.platform, "linux-x86");
    assert_eq!(got.languages, Some(vec!["go".to_string()]));
    assert_eq!(got.build_dir, "from-file");
    assert!(got.build_static);
    assert_eq!(got.tree_sitter.version, def.tree_sitter.version);
    assert!(!got.fresh);
}

#[test]
fn value_set_to_the_default_wins_over_the_file() {
    let def = BuildCommand::with_jobs(5);
    let text = "jobs = 2\nstatic = true\nbuild-dir = \"from-file\"\n";
    let mut set = OverrideSet::new();
    set.jobs = Some(5);
    set.build_static = Some(false);
    let got = config::resolve(Some(text), &def, Some(&set)).unwrap();
    assert_eq!(got.jobs, 5);
    assert!(!got.build_static);
    assert_eq!(got.build_dir, "from-file");
    let untouched = config::resolve(Some(text), &def, Some(&OverrideSet::new())).unwrap();
    assert_eq!(untouched.jobs, 2);
    assert!(untouched.build_static);
    assert_eq!(untouched, config::resolve(Some(text), &def, None).unwrap());
}

#[test]
fn a_configuration_without_a_worker_is_refused() {
    let def = BuildCommand::with_jobs(5);
    assert_eq!(
        config::resolve(Some("jobs = 0\n"), &def, None),
        Err(ConfigError::Field("jobs".to_string()))
    );
    let mut set = OverrideSet::new();
    set.jobs = Some(0);
    assert_eq!(
        config::resolve(None, &def, Some(&set)),
        Err(ConfigError::Field("jobs".to_string()))
    );
    assert_eq!(
        config::resolve(None, &BuildCommand::with_jobs(0), None),
        Err(ConfigError::Field("jobs".to_string()))
    );
    set.jobs = Some(1);
    assert_eq!(config::resolve(None, &BuildCommand::with_jobs(0), Some(&set)).unwrap().jobs, 1);
    assert_eq!(
        config::serialize(&BuildCommand::with_jobs(0)),
        Err(ConfigError::JobsOutOfRange)
    );
}

#[test]
fn a_target_configured_twice_is_not_written() {
    let mut cfg = sample();
    let first = cfg.parsers.as_ref().unwrap()[0].clone();
    cfg.parsers.as_mut().unwrap().push(first);
    assert_eq!(config::serialize(&cfg), Err(ConfigError::RepeatedTarget));
    assert_eq!(encoding::encode(&cfg).err(), Some(ConfigError::RepeatedTarget));
    assert_eq!(ConfigError::RepeatedTarget.to_text(), "A parser is configured twice");
}

#[test]
fn jobs_override_replaces_and_does_not_add() {
    let def = BuildCommand::with_jobs(8);
    let mut cmd = BuildCommand::with_jobs(8);
    cmd.jobs = 2;
    let got = config::resolve(Some("jobs = 4\n"), &def, Some(&overrides::diff(&def, &cmd))).unwrap();
    assert_eq!(got.jobs, 2);
}

#[test]
fn diff_holds_only_what_differs() {
    let def = BuildCommand::with_jobs(4);
    let mut cmd = BuildCommand::with_jobs(4);
    let none = overrides::diff(&def, &cmd);
    assert_eq!(none.build_static, None);
    assert_eq!(none.build_dir, None);
    assert_eq!(none.jobs, None);
    assert_eq!(none.languages, None);
    assert_eq!(none.parsers, None);
    assert_eq!(none.version, None);
    cmd.build_static = true;
    cmd.build_dir = "elsewhere".to_string();
    cmd.languages = Some(vec![]);
    cmd.tree_sitter.repo = "r".to_string();
    let some = overrides::diff(&def, &cmd);
    assert_eq!(some.build_static, Some(true));
    assert_eq!(some.build_dir, Some("elsewhere".to_string()));
    assert_eq!(some.languages, Some(Some(vec![])));
    assert_eq!(some.repo, Some("r".to_string()));
    assert_eq!(some.fresh, None);
    assert_eq!(some.out, None);
    assert_eq!(some.show_config, None);
    assert_eq!(some.platform, None);
    let mut target = sample();
    overrides::apply(&mut target, &some);
    assert!(target.build_static);
    assert_eq!(target.build_dir, "elsewhere");
    assert_eq!(target.languages, Some(vec![]));
    assert_eq!(target.tree_sitter.repo, "r");
    assert_eq!(target.out, "out dir");
    assert_eq!(target.jobs, 3);
    let mut untouched = sample();
    overrides::apply(&mut untouched, &none);
    assert_eq!(untouched, sample());
    let mut cleared = sample();
    cleared.build_static = true;
    let mut back = BuildCommand::with_jobs(4);
    back.build_static = true;
    let to_false = overrides::diff(&back, &def);
    assert_eq!(to_false.build_static, Some(false));
    overrides::apply(&mut cleared, &to_false);
    assert!(!cleared.build_static);
}

#[test]
fn malformed_text_is_a_syntax_error() {
    let def = BuildCommand::with_jobs(1);
    let got = config::resolve(Some("this is = = not toml"), &def, None);
    assert!(matches!(got, Err(ConfigError::Syntax(_))));
    assert!(matches!(config::current(Some("[unclosed"), None), Err(ConfigError::Syntax(_))));
}

#[test]
fn wrong_kinds_are_field_errors() {
    let def = BuildCommand::with_jobs(1);
    let cases = [
        ("static = 1\n", "static"),
        ("jobs = \"many\"\n", "jobs"),
        ("jobs = -1\n", "jobs"),
        ("jobs = 0\n", "jobs"),
        ("jobs = 1.5\n", "jobs"),
        ("build-dir = true\n", "build-dir"),
        ("fresh = \"no\"\n", "fresh"),
        ("out = 3\n", "out"),
        ("show-config = []\n", "show-config"),
        ("tree-sitter = 1\n", "tree-sitter"),
        ("[tree-sitter]\nversion = 1\n", "tree-sitter"),
        ("parsers = 1\n", "parsers"),
        ("[parsers]\nrust = 1\n", "parsers"),
        ("[parsers.rust]\nfrom = \"x\"\n", "parsers"),
        ("[parsers.rust]\nref = \"x\"\nparsers = [1]\n", "parsers"),
        ("static = 1\njobs = \"x\"\n", "static"),
        ("jobs = \"x\"\nbuild-dir = 1\n", "build-dir"),
    ];
    for (text, key) in cases {
        let got = config::resolve(Some(text), &def, None);
        assert_eq!(got, Err(ConfigError::Field(key.to_string())));
    }
}

#[test]
fn unknown_keys_are_ignored() {
    let def = BuildCommand::with_jobs(1);
    let got = config::resolve(Some("colour = 1.5\n[other]\nx = 1979-05-27\n"), &def, None);
    assert_eq!(got, Ok(def));
}

#[test]
fn parsers_are_read_in_both_forms() {
    let def = BuildCommand::with_jobs(1);
    let text = r#"
        [parsers]
        rust = "v1"

        [parsers.php]
        ref = "main"
        from = "https://example.org/php"
        parsers = ["php", "php_only"]

        [parsers.zig]
        ref = "HEAD"
        extra = 1
    "#;
    let got = config::resolve(Some(text), &def, None).unwrap();
    assert_eq!(
        got.parsers,
        Some(vec![
            (
                "php".to_string(),
                ParserConfig::Full {
                    git_ref: "main".to_string(),
                    from: Some("https://example.org/php".to_string()),
                    parsers: Some(vec!["php".to_string(), "php_only".to_string()]),
                },
            ),
            ("rust".to_string(), ParserConfig::Ref("v1".to_string())),
            (
                "zig".to_string(),
                ParserConfig::Full { git_ref: "HEAD".to_string(), from: None, parsers: None },
            ),
        ])
    );
}

#[test]
fn document_that_is_no_table_is_refused() {
    let def = BuildCommand::with_jobs(1);
    assert_eq!(schema::decode(&Node::Int(1), &def), Err(ConfigError::NotATable));
    assert_eq!(
        schema::decode(&Node::Table(vec![("jobs".to_string(), Node::Other)]), &def),
        Err(ConfigError::Field("jobs".to_string()))
    );
    let first_wins = Node::Table(vec![
        ("jobs".to_string(), Node::Int(2)),
        ("jobs".to_string(), Node::Int(3)),
    ]);
    assert_eq!(schema::decode(&first_wins, &def).unwrap().jobs, 2);
}

#[test]
fn parse_reads_every_kind_of_value() {
    let doc = document::parse("a = \"s\"\nb = 2\nc = true\nd = [1, \"x\"]\ne = 1.5\n[t]\nk = false\n")
        .unwrap();
    assert!(matches!(doc.get("a"), Some(Node::Str(s)) if s == "s"));
    assert!(matches!(doc.get("b"), Some(Node::Int(2))));
    assert!(matches!(doc.get("c"), Some(Node::Bool(true))));
    match doc.get("d") {
        Some(Node::List(items)) => {
            assert_eq!(items.len(), 2);
            assert!(matches!(&items[0], Node::Int(1)));
            assert!(matches!(&items[1], Node::Str(s) if s == "x"));
        }
        _ => panic!("d is a list"),
    }
    assert!(matches!(doc.get("e"), Some(Node::Other)));
    match doc.get("t") {
        Some(t) => assert!(matches!(t.get("k"), Some(Node::Bool(false)))),
        None => panic!("t is there"),
    }
    assert!(doc.get("missing").is_none());
    assert!(Node::Int(1).get("a").is_none());
    assert!(document::parse("a = ").is_err());
}

#[test]
fn render_writes_toml() {
    let doc = Node::Table(vec![
        ("name".to_string(), Node::Str("x".to_string())),
        ("n".to_string(), Node::Int(3)),
        ("on".to_string(), Node::Bool(true)),
        ("list".to_string(), Node::List(vec![Node::Str("a".to_string())])),
    ]);
    let text = document::render(&doc).unwrap();
    assert!(text.contains("name = \"x\""));
    assert!(text.contains("n = 3"));
    assert!(text.contains("on = true"));
    assert!(text.contains("list = [\"a\"]"));
    assert_eq!(document::render(&Node::Table(vec![("f".to_string(), Node::Other)])), None);
}

#[test]
fn serialize_writes_every_persisted_field() {
    let text = config::serialize(&BuildCommand::with_jobs(4)).unwrap();
    assert!(text.contains("build-dir = \"tmp\""));
    assert!(text.contains("static = false"));
    assert!(text.contains("jobs = 4"));
    assert!(text.contains("fresh = false"));
    assert!(text.contains("out = \"parsers\""));
    assert!(text.contains("show-config = false"));
    assert!(text.contains("[tree-sitter]"));
    assert!(text.contains("version = \"0.22.6\""));
    assert!(!text.contains("languages"));
    assert!(!text.contains("parsers ="));
}

#[test]
fn serialize_refuses_too_many_jobs() {
    let cfg = BuildCommand::with_jobs(usize::MAX);
    if usize::MAX as u128 > i64::MAX as u128 {
        assert_eq!(config::serialize(&cfg), Err(ConfigError::JobsOutOfRange));
        assert!(encoding::encode(&cfg).is_err());
    }
}

#[test]
fn run_shows_current_or_default() {
    let shown = config::run(&ConfigCommand::Default, Some("jobs = 2\n")).unwrap();
    assert!(shown.contains("build-dir = \"tmp\""));
    assert!(!shown.contains("jobs = 2\n") || BuildCommand::default().jobs == 2);
    let current = config::run(&ConfigCommand::Current, Some("out = \"elsewhere\"\n")).unwrap();
    assert!(current.contains("out = \"elsewhere\""));
    assert!(matches!(
        config::run(&ConfigCommand::Current, Some("= broken")),
        Err(ConfigError::Syntax(_))
    ));
    assert_eq!(ConfigCommand::Current.to_text(), "\"current\"");
    assert_eq!(ConfigCommand::Default.to_text(), "\"default\"");
}

#[test]
fn print_indent_puts_the_indent_before_each_line() {
    assert_eq!(config::print_indent("a\nb\r\n\nc", "  "), "  a\n  b\n  \n  c\n");
    assert_eq!(config::print_indent("", "  "), "");
    assert_eq!(config::print_indent("one\n", "> "), "> one\n");
}

#[test]
fn show_config_reports_targets_and_configuration() {
    let mut cfg = BuildCommand::with_jobs(2);
    let all = config::show_config(&cfg, "ignored").unwrap();
    assert!(all.starts_with(
        "Building all languages.\n\nRunning with the following configuration:\n\n  "
    ));
    assert!(all.contains("\n  jobs = 2\n"));
    assert!(all.ends_with("\n\n"));
    assert_eq!(config::column_input(&cfg), None);
    cfg.languages = Some(vec!["rust".to_string(), "ruby".to_string()]);
    assert_eq!(config::column_input(&cfg), Some("rust ruby".to_string()));
    let some = config::show_config(&cfg, "  rust  ruby").unwrap();
    assert!(some.starts_with(
        "Building the following languages:\n\n  rust  ruby\nRunning with the following configuration:\n\n"
    ));
}

#[test]
fn config_error_texts() {
    assert_eq!(
        ConfigError::Syntax("bad".to_string()).to_text(),
        "Malformed configuration: bad"
    );
    assert_eq!(ConfigError::NotATable.to_text(), "Malformed configuration: not a table");
    assert_eq!(
        ConfigError::Field("jobs".to_string()).to_text(),
        "Malformed configuration: unexpected value for jobs"
    );
    assert_eq!(ConfigError::JobsOutOfRange.to_text(), "The number of jobs is out of range");
    assert_eq!(
        ConfigError::Unwritable.to_text(),
        "The configuration cannot be written as TOML"
    );
}

#[test]
fn duplicates_are_copies() {
    let cfg = sample();
    assert_eq!(cfg.duplicate(), cfg);
    assert_eq!(cfg.tree_sitter.duplicate(), cfg.tree_sitter);
    let parsers = cfg.parsers.clone().unwrap();
    assert_eq!(tsp::cli::clone_parsers(&parsers), parsers);
    assert_eq!(parsers[0].1.duplicate(), parsers[0].1);
    assert!(overrides::same_parsers(&parsers, &parsers));
    assert!(!overrides::same_parser_config(&parsers[0].1, &parsers[1].1));
    assert!(overrides::same_optional_parsers(&None, &None));
    assert!(!overrides::same_optional_parsers(&None, &Some(vec![])));
    assert_eq!(
        schema::read_coordinates(&encoding::write_coordinates(&parsers[0].1)),
        Some(parsers[0].1.clone())
    );
    assert_eq!(schema::read_coordinates(&Node::Bool(true)), None);
}
