use hyperspell_desktop::shell_path::{
    add_path_line, cli_link_targets, cli_links, expose_plan, marker, rc_files, strip_marker_lines,
};
use hyperspell_desktop::uninstall::{plan, teardown};

#[test]
fn strips_marked_lines_and_ends_with_newline() {
    let text = "export A=1\nexport PATH=\"$HOME/.local/bin:$PATH\" # hyperspell\nalias x=y";
    assert_eq!(strip_marker_lines(text, "# hyperspell"), "export A=1\nalias x=y\n");
}

#[test]
fn strip_matches_lines_filter_join() {
    for text in ["", "\n", "a\r\nb # hyperspell\r\nc", "# hyperspell", "x\n\n# hyperspell\n", "a\r\r\nb"] {
        let kept: Vec<&str> = text.lines().filter(|l| !l.contains("# hyperspell")).collect();
        let expected = format!("{}\n", kept.join("\n"));
        assert_eq!(strip_marker_lines(text, "# hyperspell"), expected, "text {:?}", text);
    }
}

#[test]
fn stripping_twice_is_stripping_once() {
    for text in ["a\n# hyperspell\nb", "", "# hyperspell\n", "\n\nx"] {
        let once = strip_marker_lines(text, "# hyperspell");
        assert_eq!(strip_marker_lines(&once, "# hyperspell"), once);
    }
}

#[test]
fn path_line_is_added_once_and_removed_by_uninstall() {
    let rc = "export EDITOR=vim";
    let added = add_path_line(rc).expect("no marked line yet");
    assert_eq!(added, "export EDITOR=vim\nexport PATH=\"$HOME/.local/bin:$PATH\" # hyperspell\n");
    assert_eq!(add_path_line(&added), None);
    assert_eq!(strip_marker_lines(&added, &marker()), strip_marker_lines(rc, &marker()));
    assert_eq!(add_path_line("").unwrap(), "export PATH=\"$HOME/.local/bin:$PATH\" # hyperspell\n");
    assert_eq!(add_path_line("a\n").unwrap(), "a\nexport PATH=\"$HOME/.local/bin:$PATH\" # hyperspell\n");
}

#[test]
fn links_and_rc_files_under_home() {
    assert_eq!(cli_links("/Users/a"), vec!["/Users/a/.local/bin/hyperspell", "/Users/a/.local/bin/uv"]);
    assert_eq!(rc_files("/Users/a"), vec!["/Users/a/.zshrc", "/Users/a/.bashrc"]);
    let t = cli_link_targets("/Users/a", "/Users/a/.hyperspell/venv/bin/hyperspell", "/R/runtime/uv");
    assert_eq!(t[0], ("/Users/a/.local/bin/hyperspell".to_string(), "/Users/a/.hyperspell/venv/bin/hyperspell".to_string()));
    assert_eq!(t[1], ("/Users/a/.local/bin/uv".to_string(), "/R/runtime/uv".to_string()));
}

#[test]
fn uninstall_plan_with_and_without_purge() {
    let p = plan(Some("/Users/a"), false);
    assert_eq!(p.teardown.args, vec!["uninstall".to_string()]);
    assert_eq!(p.remove_files, cli_links("/Users/a"));
    assert_eq!(p.rc_files, rc_files("/Users/a"));
    assert_eq!(p.marker, "# hyperspell");
    assert_eq!(p.purge_dir, None);
    let q = plan(Some("/Users/a"), true);
    assert_eq!(q.teardown.args, vec!["uninstall".to_string(), "--purge".to_string()]);
    assert_eq!(q.purge_dir, Some("/Users/a/.hyperspell".to_string()));
    assert_eq!(teardown(true).program, "hyperspell");
}

#[test]
fn uninstall_without_home_only_tears_down_and_purges_relative_dir() {
    let p = plan(None, true);
    assert!(p.remove_files.is_empty() && p.rc_files.is_empty());
    assert_eq!(p.purge_dir, Some(".hyperspell".to_string()));
}

#[test]
fn expose_plan_needs_a_home() {
    assert!(expose_plan(None, "/d", "/uv").is_none());
    let p = expose_plan(Some("/Users/a"), "/d", "/uv").unwrap();
    assert_eq!(p.links, cli_link_targets("/Users/a", "/d", "/uv"));
    assert_eq!(p.rc_files, rc_files("/Users/a"));
}

#[test]
fn stripping_twice_with_carriage_returns() {
    for text in ["a\r\nb\r\n# hyperspell\r\n", "x\r\n", "a\rb\n# hyperspell"] {
        let once = strip_marker_lines(text, "# hyperspell");
        assert_eq!(strip_marker_lines(&once, "# hyperspell"), once);
    }
}
