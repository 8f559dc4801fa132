use hyperspell_desktop::daemon_paths::{
    actions_log_path, actions_log_path_in, config_path, config_path_in, daemon_bin,
    hyperspell_dir, hyperspell_dir_in, join,
};
use hyperspell_desktop::text::{chars_of, has_suffix, split_lines, str_contains, str_equal, trim};

#[test]
fn join_inserts_one_separator() {
    assert_eq!(join("/home/a", "b"), "/home/a/b");
    assert_eq!(join("/home/a/", "b"), "/home/a/b");
    assert_eq!(join("", "b"), "b");
    assert_eq!(join("/home/a", "/etc"), "/etc");
    assert_eq!(join("/home/a", ""), "/home/a/");
}

#[test]
fn join_matches_pathbuf_push() {
    for (base, part) in [("/x/y", "z"), ("/x/", "z"), ("", "z"), ("/x", "/abs"), ("rel", "a/b")] {
        let expected = std::path::PathBuf::from(base).join(part);
        assert_eq!(join(base, part), expected.to_string_lossy());
    }
}

#[test]
fn state_paths_under_a_home() {
    assert_eq!(hyperspell_dir_in(Some("/Users/alice")), "/Users/alice/.hyperspell");
    assert_eq!(config_path_in(Some("/Users/alice")), "/Users/alice/.hyperspell/config.toml");
    assert_eq!(
        actions_log_path_in(Some("/Users/alice")),
        "/Users/alice/.hyperspell/.actions.jsonl"
    );
}

#[test]
fn state_paths_without_a_home_are_relative() {
    assert_eq!(hyperspell_dir_in(None), ".hyperspell");
    assert_eq!(config_path_in(None), ".hyperspell/config.toml");
    assert_eq!(actions_log_path_in(None), ".hyperspell/.actions.jsonl");
}

#[test]
fn state_paths_follow_the_home_directory() {
    let dir = hyperspell_dir();
    assert!(dir.ends_with(".hyperspell"));
    assert_eq!(config_path(), join(&dir, "config.toml"));
    assert_eq!(actions_log_path(), join(&dir, ".actions.jsonl"));
    let home = dirs::home_dir().map(|p| p.to_string_lossy().into_owned());
    assert_eq!(dir, hyperspell_dir_in(home.as_deref()));
}

#[test]
fn daemon_is_resolved_on_path() {
    assert_eq!(daemon_bin(), "hyperspell");
}

#[test]
fn split_lines_matches_str_lines() {
    for text in ["", "a", "a\n", "a\nb", "a\r\nb\r\n", "\n\n", "x\r", "a\r\r\n", "\r\n", "é\nü"] {
        let expected: Vec<String> = text.lines().map(|l| l.to_string()).collect();
        assert_eq!(split_lines(text), expected, "text {:?}", text);
    }
}

#[test]
fn trim_matches_str_trim() {
    for text in ["", "  1 \n", "1", "\t\u{3000}x y\u{85}", " \r\n ", "\u{a0}1\u{2028}"] {
        assert_eq!(trim(text), text.trim(), "text {:?}", text);
    }
}

#[test]
fn suffix_check() {
    assert!(has_suffix("a.whl", ".whl"));
    assert!(has_suffix(".whl", ".whl"));
    assert!(!has_suffix("whl", ".whl"));
    assert!(has_suffix("abc", ""));
}

#[test]
fn string_helpers_match_std() {
    let pairs = [
        ("", ""),
        ("a", "a"),
        ("ab", "a"),
        ("ab", "b"),
        ("é", "e"),
        ("xéy", "éy"),
        ("# hyperspell", "# hyperspell"),
        ("line\n# hyperspell\n", "# hyperspell"),
        ("a", ""),
        ("", "a"),
    ];
    for (a, b) in pairs {
        assert_eq!(chars_of(a), a.chars().collect::<Vec<_>>());
        assert_eq!(str_equal(a, b), a == b, "{:?} == {:?}", a, b);
        assert_eq!(str_contains(a, b), a.contains(b), "{:?} contains {:?}", a, b);
    }
}
