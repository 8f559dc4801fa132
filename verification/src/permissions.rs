//! The five consent toggles the daemon enforces, stored as flat `perm_*`
//! keys in `~/.hyperspell/config.toml`. The app authors them after the
//! consent screen; the daemon enforces them on its next sync tick.
//! Default-deny: a key that is unset, or not a boolean, reads as `false`.

use vstd::prelude::*;
use crate::config::{config_entries, read_table};
use crate::daemon_paths::opt_view;
use crate::text::str_equal;
use crate::toml_table::{
    parse_table, parsed_table, table_new,
    render_table, rendered_table, table_entries, table_get, table_insert_flag, value_as_bool,
    TomlItem,
};

verus! {

/// Canonical key list; it matches the daemon's `config.Permissions` keys.
pub const KEYS: [&'static str; 5] = [
    "perm_claude_code",
    "perm_codex",
    "perm_cursor",
    "perm_claude_desktop",
    "perm_visible_mirror",
];

/// The consent keys, in the order of `KEYS`.
pub open spec fn permission_keys() -> Seq<Seq<char>> {
    seq![
        "perm_claude_code"@,
        "perm_codex"@,
        "perm_cursor"@,
        "perm_claude_desktop"@,
        "perm_visible_mirror"@,
    ]
}

/// One flag per integration the daemon may touch.
#[derive(Debug, Clone, Copy, PartialEq, Eq, Structural)]
pub struct Permissions {
    pub claude_code: bool,
    pub codex: bool,
    pub cursor: bool,
    pub claude_desktop: bool,
    pub visible_mirror: bool,
}

impl Default for Permissions {
    /// Nothing granted.
    fn default() -> (r: Permissions)
        ensures
            r == denied(),
    {
        Permissions {
            claude_code: false,
            codex: false,
            cursor: false,
            claude_desktop: false,
            visible_mirror: false,
        }
    }
}

/// Every permission denied.
pub open spec fn denied() -> Permissions {
    Permissions {
        claude_code: false,
        codex: false,
        cursor: false,
        claude_desktop: false,
        visible_mirror: false,
    }
}

/// `key` is present and holds the boolean `true`.
pub open spec fn granted(m: Map<Seq<char>, TomlItem>, key: Seq<char>) -> bool {
    m.contains_key(key) && m[key] == TomlItem::Flag(true)
}

/// The permissions a table of config entries grants.
pub open spec fn permissions_of(m: Map<Seq<char>, TomlItem>) -> Permissions {
    Permissions {
        claude_code: granted(m, "perm_claude_code"@),
        codex: granted(m, "perm_codex"@),
        cursor: granted(m, "perm_cursor"@),
        claude_desktop: granted(m, "perm_claude_desktop"@),
        visible_mirror: granted(m, "perm_visible_mirror"@),
    }
}

/// The flag of `p` that the consent key `key` stands for.
pub open spec fn flag_for(p: Permissions, key: Seq<char>) -> bool {
    if key == "perm_claude_code"@ {
        p.claude_code
    } else if key == "perm_codex"@ {
        p.codex
    } else if key == "perm_cursor"@ {
        p.cursor
    } else if key == "perm_claude_desktop"@ {
        p.claude_desktop
    } else {
        p.visible_mirror
    }
}

fn flag(t: &toml::Table, key: &str) -> (r: bool)
    ensures
        r == granted(table_entries(*t), key@),
{
    match table_get(t, key) {
        Some(v) => match value_as_bool(v) {
            Some(b) => b,
            None => false,
        },
        None => false,
    }
}

/// Resolves permissions from a config table, default-deny: an unset or
/// non-boolean key reads as `false`.
pub fn from_table(t: &toml::Table) -> (r: Permissions)
    ensures
        r == permissions_of(table_entries(*t)),
{
    Permissions {
        claude_code: flag(t, "perm_claude_code"),
        codex: flag(t, "perm_codex"),
        cursor: flag(t, "perm_cursor"),
        claude_desktop: flag(t, "perm_claude_desktop"),
        visible_mirror: flag(t, "perm_visible_mirror"),
    }
}

/// The permissions recorded in the config file, given its text (`None`
/// where the file is missing or unreadable).
pub fn load(config_text: Option<&str>) -> (r: Permissions)
    ensures
        r == permissions_of(config_entries(opt_view(config_text))),
{
    let t = read_table(config_text);
    from_table(&t)
}

proof fn lemma_keys()
    ensures
        permission_keys().len() == 5,
        forall|j: int| 0 <= j < 5 ==> KEYS@[j]@ == #[trigger] permission_keys()[j],
{
    assert(KEYS@[0]@ == "perm_claude_code"@);
}

/// Whether `key` is one of the consent keys.
pub fn is_permission_key(key: &str) -> (r: bool)
    ensures
        r == permission_keys().contains(key@),
{
    proof {
        lemma_keys();
    }
    let mut i: usize = 0;
    while i < 5
        invariant
            i <= 5,
            forall|j: int| 0 <= j < 5 ==> KEYS@[j]@ == #[trigger] permission_keys()[j],
            forall|j: int| 0 <= j < i ==> permission_keys()[j] != key@,
        decreases 5 - i,
    {
        if str_equal(KEYS[i], key) {
            assert(permission_keys()[i as int] == key@);
            return true;
        }
        i = i + 1;
    }
    false
}

/// A result with its texts taken by view.
pub open spec fn result_text(r: Result<String, String>) -> Result<Seq<char>, Seq<char>> {
    match r {
        Ok(s) => Ok(s@),
        Err(e) => Err(e@),
    }
}

/// The error for a key that is not a consent key.
pub open spec fn unknown_key_message(key: Seq<char>) -> Seq<char> {
    "unknown permission key: "@ + key
}

/// The entries map `key` to the boolean `value`.
pub open spec fn holds_flag(m: Map<Seq<char>, TomlItem>, key: Seq<char>, value: bool) -> bool {
    m.contains_key(key) && m[key] == TomlItem::Flag(value)
}

/// Sets one consent key in the config table, keeping every other key, and
/// returns the text to write back to `config.toml`. The daemon reconciles
/// the filesystem to match on its next sync tick.
pub fn set(table: &mut toml::Table, key: &str, value: bool) -> (r: Result<String, String>)
    ensures
        !permission_keys().contains(key@) ==> {
            &&& *final(table) == *old(table)
            &&& r matches Err(e) && e@ == unknown_key_message(key@)
        },
        permission_keys().contains(key@) ==> {
            &&& table_entries(*final(table)) == table_entries(*old(table)).insert(
                key@,
                TomlItem::Flag(value),
            )
            &&& result_text(r) == rendered_table(*final(table))
        },
        holds_flag(table_entries(*old(table)), key@, value) ==> *final(table) == *old(table),
{
    if !is_permission_key(key) {
        let msg = String::from_str("unknown permission key: ").concat(key);
        return Err(msg);
    }
    table_insert_flag(table, key, value);
    render_table(table)
}

/// The error for `key` where it is not a consent key, checked before the
/// config file is touched; `None` for a consent key.
pub fn key_error(key: &str) -> (r: Option<String>)
    ensures
        permission_keys().contains(key@) ==> r is None,
        !permission_keys().contains(key@) ==> (r matches Some(e) && e@ == unknown_key_message(
            key@,
        )),
{
    if is_permission_key(key) {
        None
    } else {
        Some(String::from_str("unknown permission key: ").concat(key))
    }
}

/// The error for a config file whose text does not parse: it is left as
/// it is rather than rewritten without its other keys.
pub open spec fn unparsable_config_message() -> Seq<char> {
    "config.toml does not parse as TOML; it was left unchanged"@
}

/// The config file's text parses, or there is no file (`None`).
pub open spec fn config_usable(config_text: Option<Seq<char>>) -> bool {
    match config_text {
        Some(s) => parsed_table(s) is Some,
        None => true,
    }
}

/// Sets one consent key in the config file, given its text (`None` where
/// there is no file), and returns the text to write back. Every other key
/// is kept; a file that does not parse is refused rather than replaced.
pub fn update_config(config_text: Option<&str>, key: &str, value: bool) -> (r: Result<
    String,
    String,
>)
    ensures
        !permission_keys().contains(key@) ==> (r matches Err(e) && e@ == unknown_key_message(
            key@,
        )),
        permission_keys().contains(key@) && !config_usable(opt_view(config_text)) ==> (r matches Err(
            e,
        ) && e@ == unparsable_config_message()),
        permission_keys().contains(key@) && config_usable(opt_view(config_text)) ==> exists|
            t: toml::Table,
        |
            {
                &&& table_entries(t) == config_entries(opt_view(config_text)).insert(
                    key@,
                    TomlItem::Flag(value),
                )
                &&& result_text(r) == rendered_table(t)
            },
{
    if !is_permission_key(key) {
        let msg = String::from_str("unknown permission key: ").concat(key);
        return Err(msg);
    }
    let mut table = match config_text {
        Some(s) => match parse_table(s) {
            Some(t) => t,
            None => {
                return Err(
                    String::from_str("config.toml does not parse as TOML; it was left unchanged"),
                );
            },
        },
        None => table_new(),
    };
    let r = set(&mut table, key, value);
    assert(table_entries(table) == config_entries(opt_view(config_text)).insert(
        key@,
        TomlItem::Flag(value),
    ));
    r
}

proof fn reveal_keys() {
    reveal_strlit("perm_claude_code");
    reveal_strlit("perm_codex");
    reveal_strlit("perm_cursor");
    reveal_strlit("perm_claude_desktop");
    reveal_strlit("perm_visible_mirror");
}

/// Default-deny: a table with no entries grants nothing, and a permission
/// is granted only where its key holds the boolean `true`.
pub proof fn law_default_deny(m: Map<Seq<char>, TomlItem>, key: Seq<char>)
    requires
        permission_keys().contains(key),
    ensures
        permissions_of(Map::empty()) == denied(),
        flag_for(permissions_of(m), key) <==> m.contains_key(key) && m[key] == TomlItem::Flag(true),
{
    reveal_keys();
}

/// Setting a consent key to `value` makes that permission read as `value`
/// and leaves the four others as they were.
pub proof fn law_set_touches_only_its_key(
    m: Map<Seq<char>, TomlItem>,
    key: Seq<char>,
    other: Seq<char>,
    value: bool,
)
    requires
        permission_keys().contains(key),
        permission_keys().contains(other),
        other != key,
    ensures
        flag_for(permissions_of(m.insert(key, TomlItem::Flag(value))), key) == value,
        flag_for(permissions_of(m.insert(key, TomlItem::Flag(value))), other) == flag_for(
            permissions_of(m),
            other,
        ),
{
    reveal_keys();
}

/// A key that is not a consent key has no say in the permissions.
pub proof fn law_other_keys_ignored(m: Map<Seq<char>, TomlItem>, key: Seq<char>, item: TomlItem)
    requires
        !permission_keys().contains(key),
    ensures
        permissions_of(m.insert(key, item)) == permissions_of(m),
{
    reveal_keys();
    assert(permission_keys()[0] == "perm_claude_code"@);
    assert(permission_keys()[1] == "perm_codex"@);
    assert(permission_keys()[2] == "perm_cursor"@);
    assert(permission_keys()[3] == "perm_claude_desktop"@);
    assert(permission_keys()[4] == "perm_visible_mirror"@);
}

/// Repeating a toggle changes nothing: once `set` has put `value` under
/// `key`, the entries hold that flag, so a second `set` with the same key
/// and value leaves the table exactly as it was (and renders the same
/// text); and setting a key to the value it was just set to gives the same
/// entries, and so the same permissions.
pub proof fn law_repeat_toggle_changes_nothing(m: Map<Seq<char>, TomlItem>, key: Seq<char>, value: bool)
    ensures
        holds_flag(m.insert(key, TomlItem::Flag(value)), key, value),
        m.insert(key, TomlItem::Flag(value)).insert(key, TomlItem::Flag(value)) == m.insert(
            key,
            TomlItem::Flag(value),
        ),
        permissions_of(m.insert(key, TomlItem::Flag(value)).insert(key, TomlItem::Flag(value)))
            == permissions_of(m.insert(key, TomlItem::Flag(value))),
{
    assert(m.insert(key, TomlItem::Flag(value)).insert(key, TomlItem::Flag(value)) =~= m.insert(
        key,
        TomlItem::Flag(value),
    ));
}

} // verus!
