//! The daemon's GUI login: `hyperspell login --json` streams the device-auth
//! flow as newline-delimited JSON, which the app forwards to the frontend.
//! JSON mode is auth-only: it neither installs auto-start nor writes
//! AI-tool configs, so the app keeps sole ownership of supervision and
//! consent. This module builds the command; the caller spawns it.

use vstd::prelude::*;
use crate::command::{owned, CommandSpec};
use crate::daemon_paths::daemon_bin;
use crate::text::views;

verus! {

/// `hyperspell login --json --app-slug <slug> --name <name>`.
pub open spec fn login_command_of(app_slug: Seq<char>, name: Seq<char>) -> (Seq<char>, Seq<Seq<char>>) {
    ("hyperspell"@, seq!["login"@, "--json"@, "--app-slug"@, app_slug, "--name"@, name])
}

/// The login command for an app slug and a device name.
pub fn login_command(app_slug: &str, name: &str) -> (r: CommandSpec)
    ensures
        r@ == login_command_of(app_slug@, name@),
{
    let args = owned(&["login", "--json", "--app-slug", app_slug, "--name", name]);
    assert(views(args@) =~= login_command_of(app_slug@, name@).1);
    CommandSpec { program: daemon_bin(), args }
}

/// The error for a login that could not be started, given the spawn's
/// error text.
pub fn login_spawn_error(e: &str) -> (r: String)
    ensures
        r@ == "failed to start login: "@ + e@,
{
    String::from_str("failed to start login: ").concat(e)
}

/// The error for a login whose output cannot be read.
pub fn login_output_error() -> (r: String)
    ensures
        r@ == "no stdout from login"@,
{
    String::from_str("no stdout from login")
}

} // verus!
