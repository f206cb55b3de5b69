use tsp::text;

fn strings(items: &[&str]) -> Vec<String> {
    items.iter().map(|s| s.to_string()).collect()
}

#[test]
fn lines_are_split_at_line_feeds() {
    assert_eq!(text::lines(""), Vec::<String>::new());
    assert_eq!(text::lines("abc"), strings(&["abc"]));
    assert_eq!(text::lines("abc\n"), strings(&["abc"]));
    assert_eq!(text::lines("a\n\nb"), strings(&["a", "", "b"]));
    assert_eq!(text::lines("a\r\nb\r\n"), strings(&["a", "b"]));
    assert_eq!(text::lines("a\rb\r"), strings(&["a\rb\r"]));
    assert_eq!(text::lines("\n"), strings(&[""]));
    assert_eq!(text::lines("é\nü"), strings(&["é", "ü"]));
}

#[test]
fn lines_agree_with_std() {
    for sample in ["", "a", "a\n", "\n\n", "a\r\n\r\nb", "x\ny\nz\n", "tail\r"] {
        let expected: Vec<String> = sample.lines().map(|l| l.to_string()).collect();
        assert_eq!(text::lines(sample), expected);
    }
}

#[test]
fn join_puts_the_separator_between() {
    assert_eq!(text::join(&strings(&[]), ", "), "");
    assert_eq!(text::join(&strings(&["a"]), ", "), "a");
    assert_eq!(text::join(&strings(&["a", "b", "c"]), ", "), "a, b, c");
    assert_eq!(text::join(&strings(&["", ""]), "-"), "-");
}

#[test]
fn numbers_are_written_in_decimal() {
    assert_eq!(text::number(0), "0");
    assert_eq!(text::number(7), "7");
    assert_eq!(text::number(10), "10");
    assert_eq!(text::number(1234567890), "1234567890");
    assert_eq!(text::number(u64::MAX), "18446744073709551615");
    assert_eq!(text::signed_number(0), "0");
    assert_eq!(text::signed_number(-1), "-1");
    assert_eq!(text::signed_number(42), "42");
    assert_eq!(text::signed_number(i64::MIN), "-9223372036854775808");
    assert_eq!(text::signed_number(i64::MAX), "9223372036854775807");
}

#[test]
fn paths_are_joined_with_a_slash() {
    assert_eq!(text::join_path("tmp", "rust"), "tmp/rust");
    assert_eq!(text::join_path("tmp/", "rust"), "tmp/rust");
    assert_eq!(text::join_path("", "rust"), "rust");
    assert_eq!(text::join_path("tmp", "/abs"), "/abs");
    assert_eq!(text::join_path("/", "x"), "/x");
    assert_eq!(text::join_path("a/b", "c/d"), "a/b/c/d");
    assert_eq!(text::join_path("a", ""), "a/");
}

#[test]
fn last_part_follows_the_last_slash() {
    assert_eq!(text::last_part("refs/tags/v1.0"), "v1.0");
    assert_eq!(text::last_part("plain"), "plain");
    assert_eq!(text::last_part("ends/"), "");
    assert_eq!(text::last_part(""), "");
    assert_eq!(text::last_part("abc\trefs/tags/0.22.6"), "0.22.6");
    assert_eq!(text::last_part("/usr/bin/curl"), "curl");
}

#[test]
fn trim_drops_blanks_at_both_ends() {
    assert_eq!(text::trim("  /usr/bin/curl\n"), "/usr/bin/curl");
    assert_eq!(text::trim("\t \r\n"), "");
    assert_eq!(text::trim(""), "");
    assert_eq!(text::trim("a b"), "a b");
    assert_eq!(text::trim("\n a b \t"), "a b");
    for sample in [
        "\u{a0}a\u{3000}",
        "\u{85}\u{1680}x y\u{2000}\u{200a}\u{2028}\u{2029}\u{202f}\u{205f}",
        "\u{b}\u{c}z",
        "\u{200b}kept\u{200b}",
        "\u{feff}kept",
        " é ",
    ] {
        assert_eq!(text::trim(sample), sample.trim());
    }
    assert_eq!(text::after_tab("a\tb\tc"), "b\tc");
    assert_eq!(text::after_tab("no tab"), "no tab");
    assert_eq!(text::after_tab("end\t"), "");
    assert_eq!(text::after_tab(""), "");
}

#[test]
fn strip_base_leaves_what_follows() {
    assert_eq!(text::strip_base("/home/u/tmp", "/home/u"), Some("tmp".to_string()));
    assert_eq!(text::strip_base("/home/u", "/home/u"), Some("".to_string()));
    assert_eq!(text::strip_base("/home/user", "/home/u"), None);
    assert_eq!(text::strip_base("/home/u/tmp", "/home/u/"), Some("tmp".to_string()));
    assert_eq!(text::strip_base("tmp", ""), Some("tmp".to_string()));
    assert_eq!(text::strip_base("a", "abc"), None);
    assert_eq!(text::strip_base("x/y", "z"), None);
}

#[test]
fn small_helpers() {
    assert_eq!(text::owned("x"), "x");
    assert_eq!(text::concat("ab", "cd"), "abcd");
    assert!(text::same("a", "a"));
    assert!(!text::same("a", "b"));
    assert_eq!(text::chars_of("héllo"), vec!['h', 'é', 'l', 'l', 'o']);
    let list = strings(&["a", "b"]);
    assert_eq!(text::clone_strings(&list), list);
    assert!(text::contains(&list, "b"));
    assert!(!text::contains(&list, "c"));
    assert!(text::same_strings(&list, &strings(&["a", "b"])));
    assert!(!text::same_strings(&list, &strings(&["a"])));
    assert!(!text::same_strings(&list, &strings(&["a", "c"])));
    assert!(text::same_optional(&None, &None));
    assert!(text::same_optional(&Some("a".to_string()), &Some("a".to_string())));
    assert!(!text::same_optional(&Some("a".to_string()), &None));
    assert!(text::same_optional_strings(&Some(list.clone()), &Some(list.clone())));
    assert!(!text::same_optional_strings(&Some(list.clone()), &None));
    assert_eq!(text::indent_all(&list, "- "), "- a\n- b\n");
}
