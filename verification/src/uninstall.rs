//! Removing Hyperspell from the machine: the reversibility half of the trust
//! story. The daemon's own teardown (agent configs, mirror, legacy
//! autostart), the `PATH` links and shell-rc lines the app added, and, with
//! `purge`, the whole `~/.hyperspell`. This module plans the removal; the
//! caller touches the disk.

use vstd::prelude::*;
use crate::command::{owned, CommandSpec};
use crate::daemon_paths::{daemon_bin, home_dir, hyperspell_dir_in, opt_view, state_dir_of};
use crate::shell_path::{cli_links, cli_links_of, is_expose_plan, marker, rc_files, rc_files_of, rc_marker, ExposePlan};
use crate::text::views;

verus! {

/// The daemon's own teardown command.
pub open spec fn teardown_command(purge: bool) -> (Seq<char>, Seq<Seq<char>>) {
    if purge {
        ("hyperspell"@, seq!["uninstall"@, "--purge"@])
    } else {
        ("hyperspell"@, seq!["uninstall"@])
    }
}

/// `hyperspell uninstall`, with `--purge` when asked.
pub fn teardown(purge: bool) -> (r: CommandSpec)
    ensures
        r@ == teardown_command(purge),
{
    let args = if purge {
        owned(&["uninstall", "--purge"])
    } else {
        owned(&["uninstall"])
    };
    let program = daemon_bin();
    assert(views(args@) =~= teardown_command(purge).1);
    CommandSpec { program, args }
}

/// What removing Hyperspell does, in order: run the daemon's teardown
/// (best-effort), remove the `PATH` links, strip the marked lines from the
/// shell files, and with `purge` delete the state directory.
pub struct UninstallPlan {
    pub teardown: CommandSpec,
    pub remove_files: Vec<String>,
    pub rc_files: Vec<String>,
    pub marker: String,
    pub purge_dir: Option<String>,
}

/// `r` is the removal for the home directory `home` (`None` where there is
/// none: the links and shell files are then left alone).
pub open spec fn is_plan(r: UninstallPlan, home: Option<Seq<char>>, purge: bool) -> bool {
    &&& r.teardown@ == teardown_command(purge)
    &&& r.marker@ == rc_marker()
    &&& home matches Some(h) ==> views(r.remove_files@) == cli_links_of(h) && views(r.rc_files@)
        == rc_files_of(h)
    &&& home is None ==> r.remove_files@.len() == 0 && r.rc_files@.len() == 0
    &&& purge ==> (r.purge_dir matches Some(d) && d@ == state_dir_of(home))
    &&& !purge ==> r.purge_dir is None
}

/// The removal for a given home directory.
pub fn plan(home: Option<&str>, purge: bool) -> (r: UninstallPlan)
    ensures
        is_plan(r, opt_view(home), purge),
{
    let (remove_files, rc) = match home {
        Some(h) => (cli_links(h), rc_files(h)),
        None => (Vec::new(), Vec::new()),
    };
    let purge_dir = if purge {
        Some(hyperspell_dir_in(home))
    } else {
        None
    };
    UninstallPlan { teardown: teardown(purge), remove_files, rc_files: rc, marker: marker(), purge_dir }
}

/// Uninstalling undoes exposing: for one home, the removal takes away
/// exactly the links that putting the CLIs on `PATH` created, and strips
/// the marked line from exactly the shell files that got it.
pub proof fn law_uninstall_removes_what_expose_adds(
    u: UninstallPlan,
    e: ExposePlan,
    home: Seq<char>,
    daemon: Seq<char>,
    uv: Seq<char>,
    purge: bool,
)
    requires
        is_plan(u, Some(home), purge),
        is_expose_plan(e, home, daemon, uv),
    ensures
        u.remove_files@.len() == e.links@.len(),
        forall|i: int| 0 <= i < e.links@.len() ==> #[trigger] u.remove_files@[i]@ == e.links@[i].0@,
        views(u.rc_files@) == views(e.rc_files@),
        u.marker@ == rc_marker(),
{
    assert(views(u.remove_files@).len() == 2);
    assert forall|i: int| 0 <= i < e.links@.len() implies #[trigger] u.remove_files@[i]@
        == e.links@[i].0@ by {
        assert(views(u.remove_files@)[i] == u.remove_files@[i]@);
    }
}

/// The removal for this user, whose home directory `dirs::home_dir` finds.
pub fn current_plan(purge: bool) -> (r: UninstallPlan)
    ensures
        exists|home: Option<Seq<char>>| is_plan(r, home, purge),
{
    let home = home_dir();
    match home {
        Some(h) => plan(Some(h.as_str()), purge),
        None => plan(None, purge),
    }
}

} // verus!
