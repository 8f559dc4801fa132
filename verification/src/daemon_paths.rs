//! Filesystem locations the daemon and the app share. All consent and state
//! lives under the daemon's `~/.hyperspell`, so the CLI and the app stay in
//! lockstep. Paths are held as text and joined the way a Unix `PathBuf`
//! pushes a component.

use vstd::prelude::*;

verus! {

/// `base` with `part` pushed onto it: an absolute `part` replaces `base`,
/// otherwise a `/` separates the two unless `base` is empty or already ends
/// with one.
pub open spec fn join_text(base: Seq<char>, part: Seq<char>) -> Seq<char> {
    if part.len() > 0 && part[0] == '/' {
        part
    } else if base.len() > 0 && base.last() != '/' {
        base + seq!['/'] + part
    } else {
        base + part
    }
}

/// Pushes `part` onto the path `base`.
pub fn join(base: &str, part: &str) -> (r: String)
    ensures
        r@ == join_text(base@, part@),
{
    let n = base.unicode_len();
    let m = part.unicode_len();
    if m > 0 && part.get_char(0) == '/' {
        return part.to_string();
    }
    let mut r = base.to_string();
    if n > 0 && base.get_char(n - 1) != '/' {
        r.append("/");
        proof {
            reveal_strlit("/");
        }
    }
    r.append(part);
    r
}

/// The home directory, as `dirs::home_dir` finds it (from `$HOME`, or the
/// password database), rendered as text. Nothing is promised of the
/// outcome: it depends on the environment of the process.
#[verifier::external_body]
pub(crate) fn home_dir() -> (r: Option<String>) {
    dirs::home_dir().map(|p| p.to_string_lossy().into_owned())
}

/// The daemon's state directory for a given home directory; without a home
/// the path is relative, as joining onto an empty path gives.
pub open spec fn state_dir_of(home: Option<Seq<char>>) -> Seq<char> {
    join_text(
        match home {
            Some(h) => h,
            None => Seq::empty(),
        },
        ".hyperspell"@,
    )
}

pub open spec fn config_path_of(home: Option<Seq<char>>) -> Seq<char> {
    join_text(state_dir_of(home), "config.toml"@)
}

pub open spec fn actions_log_path_of(home: Option<Seq<char>>) -> Seq<char> {
    join_text(state_dir_of(home), ".actions.jsonl"@)
}

pub open spec fn opt_view(s: Option<&str>) -> Option<Seq<char>> {
    match s {
        Some(t) => Some(t@),
        None => None,
    }
}

/// `<home>/.hyperspell` for the given home directory.
pub fn hyperspell_dir_in(home: Option<&str>) -> (r: String)
    ensures
        r@ == state_dir_of(opt_view(home)),
{
    match home {
        Some(h) => {
            let r = join(h, ".hyperspell");
            assert(opt_view(home) == Some(h@));
            r
        },
        None => {
            let r = join("", ".hyperspell");
            proof {
                reveal_strlit("");
            }
            r
        },
    }
}

/// `~/.hyperspell`: the daemon's private state directory.
pub fn hyperspell_dir() -> (r: String)
    ensures
        exists|home: Option<Seq<char>>| r@ == state_dir_of(home),
{
    let home = home_dir();
    match home {
        Some(h) => hyperspell_dir_in(Some(h.as_str())),
        None => hyperspell_dir_in(None),
    }
}

/// `<home>/.hyperspell/config.toml`: auth and the `perm_*` consent keys.
pub fn config_path_in(home: Option<&str>) -> (r: String)
    ensures
        r@ == config_path_of(opt_view(home)),
{
    let dir = hyperspell_dir_in(home);
    join(dir.as_str(), "config.toml")
}

/// `~/.hyperspell/config.toml`.
pub fn config_path() -> (r: String)
    ensures
        exists|home: Option<Seq<char>>| r@ == config_path_of(home),
{
    let home = home_dir();
    match home {
        Some(h) => config_path_in(Some(h.as_str())),
        None => config_path_in(None),
    }
}

/// `<home>/.hyperspell/.actions.jsonl`: the daemon's append-only activity log.
pub fn actions_log_path_in(home: Option<&str>) -> (r: String)
    ensures
        r@ == actions_log_path_of(opt_view(home)),
{
    let dir = hyperspell_dir_in(home);
    join(dir.as_str(), ".actions.jsonl")
}

/// `~/.hyperspell/.actions.jsonl`.
pub fn actions_log_path() -> (r: String)
    ensures
        exists|home: Option<Seq<char>>| r@ == actions_log_path_of(home),
{
    let home = home_dir();
    match home {
        Some(h) => actions_log_path_in(Some(h.as_str())),
        None => actions_log_path_in(None),
    }
}

/// The name of the daemon program, resolved on `PATH`.
pub fn daemon_bin() -> (r: String)
    ensures
        r@ == "hyperspell"@,
{
    String::from_str("hyperspell")
}

} // verus!
