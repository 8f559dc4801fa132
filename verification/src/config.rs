//! Reads of the daemon's `~/.hyperspell/config.toml` that the app needs:
//! the table itself (shared with the consent logic) and the auth state.
//! The file's text is read by the caller and handed in; a missing or
//! unreadable file is `None`.

use vstd::prelude::*;
use crate::daemon_paths::opt_view;
use crate::toml_table::{
    parse_table, parsed_table, table_entries, table_get, table_new, value_as_str, TomlItem,
};

verus! {

/// The entries of the config table for the file's text: what it parses to,
/// or no entries where the file is missing or does not parse.
pub open spec fn config_entries(text: Option<Seq<char>>) -> Map<Seq<char>, TomlItem> {
    match text {
        Some(s) => match parsed_table(s) {
            Some(m) => m,
            None => Map::empty(),
        },
        None => Map::empty(),
    }
}

/// `key` holds a non-empty string.
pub open spec fn has_text(m: Map<Seq<char>, TomlItem>, key: Seq<char>) -> bool {
    m.contains_key(key) && match m[key] {
        TomlItem::Text(s) => s.len() > 0,
        _ => false,
    }
}

/// The daemon is authenticated: a device token or an API key is present.
pub open spec fn signed_in(m: Map<Seq<char>, TomlItem>) -> bool {
    has_text(m, "token"@) || has_text(m, "api_key"@)
}

/// Either credential alone signs the daemon in, whatever else the table
/// holds; with neither a non-empty `token` nor a non-empty `api_key` it is
/// signed out.
pub proof fn law_either_credential_signs_in(m: Map<Seq<char>, TomlItem>)
    ensures
        has_text(m, "token"@) ==> signed_in(m),
        has_text(m, "api_key"@) ==> signed_in(m),
        has_text(m, "token"@) && has_text(m, "api_key"@) ==> signed_in(m),
        !has_text(m, "token"@) && !has_text(m, "api_key"@) ==> !signed_in(m),
{
}

/// The config table for the file's text; empty where the file is missing
/// or does not parse.
pub fn read_table(config_text: Option<&str>) -> (r: toml::Table)
    ensures
        table_entries(r) == config_entries(opt_view(config_text)),
{
    match config_text {
        Some(s) => match parse_table(s) {
            Some(t) => t,
            None => table_new(),
        },
        None => table_new(),
    }
}

fn nonempty_text(t: &toml::Table, key: &str) -> (r: bool)
    ensures
        r == has_text(table_entries(*t), key@),
{
    match table_get(t, key) {
        Some(v) => match value_as_str(v) {
            Some(s) => !s.is_empty(),
            None => false,
        },
        None => false,
    }
}

/// Whether a config table records an authenticated daemon.
pub fn table_logged_in(t: &toml::Table) -> (r: bool)
    ensures
        r == signed_in(table_entries(*t)),
        has_text(table_entries(*t), "token"@) ==> r,
        has_text(table_entries(*t), "api_key"@) ==> r,
        !has_text(table_entries(*t), "token"@) && !has_text(table_entries(*t), "api_key"@) ==> !r,
{
    let token = nonempty_text(t, "token");
    let api_key = nonempty_text(t, "api_key");
    token || api_key
}

/// Whether the daemon is authenticated (device token or API key present),
/// given the text of its config file.
pub fn logged_in(config_text: Option<&str>) -> (r: bool)
    ensures
        r == signed_in(config_entries(opt_view(config_text))),
        has_text(config_entries(opt_view(config_text)), "token"@) ==> r,
        has_text(config_entries(opt_view(config_text)), "api_key"@) ==> r,
        !has_text(config_entries(opt_view(config_text)), "token"@) && !has_text(
            config_entries(opt_view(config_text)),
            "api_key"@,
        ) ==> !r,
{
    let t = read_table(config_text);
    table_logged_in(&t)
}

} // verus!
