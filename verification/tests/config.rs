use hyperspell_desktop::config::{logged_in, read_table, table_logged_in};

#[test]
fn no_file_is_not_logged_in() {
    assert!(!logged_in(None));
}

#[test]
fn token_or_api_key_logs_in() {
    assert!(logged_in(Some("token = \"dev-123\"\n")));
    assert!(logged_in(Some("api_key = \"sk\"\n")));
    assert!(logged_in(Some("token = \"\"\napi_key = \"sk\"\n")));
}

#[test]
fn empty_or_non_string_credentials_do_not_log_in() {
    assert!(!logged_in(Some("token = \"\"\n")));
    assert!(!logged_in(Some("token = 5\napi_key = true\n")));
    assert!(!logged_in(Some("perm_codex = true\n")));
}

#[test]
fn unparsable_file_reads_as_empty() {
    let t = read_table(Some("token = \"x\"\ntoken = \"y\"\n"));
    assert!(t.is_empty());
    assert!(!logged_in(Some("not toml at all [")));
}

#[test]
fn read_table_keeps_every_entry() {
    let t = read_table(Some("token = \"x\"\nport = 1\n[section]\nk = 2\n"));
    assert_eq!(t.len(), 3);
    assert!(table_logged_in(&t));
}
