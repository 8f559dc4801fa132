use hyperspell_desktop::permissions;
use hyperspell_desktop::permissions::{
    from_table, is_permission_key, key_error, load, update_config, Permissions, KEYS,
};

#[test]
fn empty_config_denies_everything() {
    let p = from_table(&toml::Table::new());
    assert!(!p.claude_code && !p.codex && !p.cursor);
    assert!(!p.claude_desktop && !p.visible_mirror);
}

#[test]
fn only_set_keys_are_granted() {
    let t: toml::Table = "perm_claude_code = true\nperm_cursor = true\n"
        .parse()
        .unwrap();
    let p = from_table(&t);
    assert!(p.claude_code && p.cursor);
    assert!(!p.codex && !p.claude_desktop && !p.visible_mirror);
}

#[test]
fn non_boolean_value_reads_as_denied() {
    let t: toml::Table = "perm_codex = \"yes\"\n".parse().unwrap();
    assert!(!from_table(&t).codex);
}

#[test]
fn explicit_false_reads_as_denied() {
    let t: toml::Table = "perm_visible_mirror = false\nperm_claude_desktop = true\n"
        .parse()
        .unwrap();
    let p = from_table(&t);
    assert!(!p.visible_mirror);
    assert!(p.claude_desktop);
}

#[test]
fn default_is_all_denied() {
    let p = Permissions::default();
    assert_eq!(p, from_table(&toml::Table::new()));
}

#[test]
fn load_without_file_denies_everything() {
    assert_eq!(load(None), Permissions::default());
}

#[test]
fn load_of_unparsable_file_denies_everything() {
    assert_eq!(load(Some("perm_codex = = true")), Permissions::default());
}

#[test]
fn load_reads_the_file_text() {
    let p = load(Some("token = \"t\"\nperm_codex = true\n"));
    assert!(p.codex);
    assert!(!p.claude_code && !p.cursor && !p.claude_desktop && !p.visible_mirror);
}

#[test]
fn keys_are_the_five_consent_keys() {
    assert_eq!(
        KEYS,
        [
            "perm_claude_code",
            "perm_codex",
            "perm_cursor",
            "perm_claude_desktop",
            "perm_visible_mirror"
        ]
    );
    for k in KEYS {
        assert!(is_permission_key(k));
    }
    assert!(!is_permission_key("token"));
    assert!(!is_permission_key("perm_"));
    assert!(!is_permission_key(""));
}

#[test]
fn set_rejects_unknown_key_and_keeps_table() {
    let mut t: toml::Table = "token = \"abc\"\n".parse().unwrap();
    let before = t.clone();
    let r = permissions::set(&mut t, "perm_everything", true);
    assert_eq!(r, Err("unknown permission key: perm_everything".to_string()));
    assert_eq!(t, before);
}

#[test]
fn set_grants_only_its_key_and_keeps_others() {
    let mut t: toml::Table = "token = \"abc\"\nperm_cursor = true\nport = 8080\n"
        .parse()
        .unwrap();
    let body = permissions::set(&mut t, "perm_codex", true).unwrap();
    let p = from_table(&t);
    assert!(p.codex && p.cursor);
    assert!(!p.claude_code && !p.claude_desktop && !p.visible_mirror);
    let reread: toml::Table = body.parse().unwrap();
    assert_eq!(reread, t);
    assert_eq!(reread.get("token").and_then(|v| v.as_str()), Some("abc"));
    assert_eq!(reread.get("port").and_then(|v| v.as_integer()), Some(8080));
}

#[test]
fn set_can_revoke() {
    let mut t: toml::Table = "perm_cursor = true\n".parse().unwrap();
    let body = permissions::set(&mut t, "perm_cursor", false).unwrap();
    assert!(!from_table(&t).cursor);
    assert_eq!(load(Some(&body)), Permissions::default());
}

#[test]
fn set_then_load_reads_back_the_value() {
    let mut t = toml::Table::new();
    let body = permissions::set(&mut t, "perm_claude_desktop", true).unwrap();
    let p = load(Some(&body));
    assert!(p.claude_desktop);
    assert!(!p.claude_code && !p.codex && !p.cursor && !p.visible_mirror);
}

#[test]
fn update_config_keeps_other_keys() {
    let body = update_config(Some("token = \"abc\"\nperm_cursor = true\n"), "perm_codex", true).unwrap();
    let t: toml::Table = body.parse().unwrap();
    assert_eq!(t.get("token").and_then(|v| v.as_str()), Some("abc"));
    let p = from_table(&t);
    assert!(p.codex && p.cursor);
}

#[test]
fn update_config_refuses_unparsable_file() {
    let r = update_config(Some("token = \"abc\"\nbad line\n"), "perm_codex", true);
    assert_eq!(r, Err("config.toml does not parse as TOML; it was left unchanged".to_string()));
}

#[test]
fn update_config_without_file_writes_only_the_key() {
    let body = update_config(None, "perm_cursor", true).unwrap();
    assert_eq!(load(Some(&body)).cursor, true);
    let t: toml::Table = body.parse().unwrap();
    assert_eq!(t.len(), 1);
}

#[test]
fn update_config_rejects_unknown_key_first() {
    let r = update_config(Some("bad line"), "perm_nope", true);
    assert_eq!(r, Err("unknown permission key: perm_nope".to_string()));
}

#[test]
fn key_error_only_for_unknown_keys() {
    assert_eq!(key_error("perm_codex"), None);
    assert_eq!(key_error("perm_nope"), Some("unknown permission key: perm_nope".to_string()));
}

#[test]
fn repeating_a_toggle_changes_nothing() {
    let once = update_config(Some("token = \"abc\"\n"), "perm_cursor", true).unwrap();
    let twice = update_config(Some(&once), "perm_cursor", true).unwrap();
    assert_eq!(once, twice);
}

#[test]
fn repeating_set_on_a_table_leaves_it_as_it_was() {
    let mut t: toml::Table = "token = \"abc\"\nperm_codex = false\n".parse().unwrap();
    let first = permissions::set(&mut t, "perm_codex", true).unwrap();
    let after_first = t.clone();
    let second = permissions::set(&mut t, "perm_codex", true).unwrap();
    assert_eq!(t, after_first);
    assert_eq!(first, second);
}
