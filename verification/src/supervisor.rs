//! Supervision of the bundled `hyperspell sync --supervised` daemon. The app
//! is the sole supervisor: `--supervised` makes the daemon tear down any
//! legacy auto-start so the two don't fight. The supervisor holds the child
//! it spawned (of whatever type the caller's process handle is); the caller
//! spawns, kills and waits.

use vstd::prelude::*;
use crate::command::{owned, CommandSpec};
use crate::daemon_paths::daemon_bin;
use crate::text::views;

verus! {

/// The command that runs the daemon under supervision.
pub open spec fn sync_command() -> (Seq<char>, Seq<Seq<char>>) {
    ("hyperspell"@, seq!["sync"@, "--supervised"@])
}

/// The error for a daemon that could not be started.
pub open spec fn start_error(e: Seq<char>) -> Seq<char> {
    "failed to start daemon: "@ + e
}

/// What starting asks of the caller.
pub enum StartStep {
    /// A daemon already runs under this supervisor: starting is a no-op
    /// that succeeds, and the child is kept.
    AlreadyRunning,
    /// Spawn this command and report the outcome to `spawned`.
    Spawn(CommandSpec),
}

/// The wait, in seconds, before restarting a daemon after `crashes`
/// crashes in a row: doubling from 2, at most 64.
pub open spec fn backoff_secs(crashes: u32) -> u64 {
    if crashes <= 1 {
        2
    } else if crashes == 2 {
        4
    } else if crashes == 3 {
        8
    } else if crashes == 4 {
        16
    } else if crashes == 5 {
        32
    } else {
        64
    }
}

pub struct Supervisor<C> {
    child: Option<C>,
    crashes: u32,
}

impl<C> Supervisor<C> {
    /// The daemon child this supervisor holds, if any.
    pub closed spec fn held(&self) -> Option<C> {
        self.child
    }

    /// How many times in a row the daemon has crashed.
    pub closed spec fn crash_count(&self) -> u32 {
        self.crashes
    }

    /// Starting this supervisor spawns a daemon: none is held.
    pub open spec fn plans_spawn(&self) -> bool {
        self.held() is None
    }

    /// A supervisor with no daemon running.
    pub fn new() -> (r: Self)
        ensures
            r.held() is None,
            r.crash_count() == 0,
    {
        Supervisor { child: None, crashes: 0 }
    }

    /// Whether a daemon is running under this supervisor.
    pub fn is_running(&self) -> (r: bool)
        ensures
            r == self.held() is Some,
    {
        self.child.is_some()
    }

    fn sync() -> (r: CommandSpec)
        ensures
            r@ == sync_command(),
    {
        let args = owned(&["sync", "--supervised"]);
        let program = daemon_bin();
        assert(views(args@) =~= sync_command().1);
        CommandSpec { program, args }
    }

    /// Starts the daemon if it isn't already running under us. With a daemon
    /// held this is a no-op that succeeds and keeps the child; otherwise the
    /// caller is asked to spawn `hyperspell sync --supervised`.
    pub fn start(&mut self) -> (r: StartStep)
        ensures
            *final(self) == *old(self),
            r is Spawn <==> old(self).plans_spawn(),
            r is Spawn <==> old(self).held() is None,
            r matches StartStep::Spawn(c) ==> c@ == sync_command(),
    {
        if self.child.is_some() {
            StartStep::AlreadyRunning
        } else {
            StartStep::Spawn(Self::sync())
        }
    }

    /// With no daemon held, starting always asks for a spawn, whatever the
    /// crash count; with one held, it never does.
    pub proof fn law_start_spawns_exactly_when_none_held(&self)
        ensures
            self.held() is None ==> self.plans_spawn(),
            self.held() is Some ==> !self.plans_spawn(),
    {
    }

    /// Records the outcome of a spawn that `start` asked for: the child is
    /// held on success, else the spawn's error text comes back. Should a
    /// daemon already be held, it is kept, and a newly spawned child is
    /// handed back for the caller to stop.
    pub fn spawned(&mut self, outcome: Result<C, String>) -> (r: Result<Option<C>, String>)
        ensures
            final(self).crash_count() == old(self).crash_count(),
            old(self).held() is Some ==> final(self).held() == old(self).held(),
            old(self).held() is None ==> match outcome {
                Ok(c) => final(self).held() == Some(c),
                Err(_) => final(self).held() is None,
            },
            match outcome {
                Ok(c) => r == if old(self).held() is Some {
                    Ok::<Option<C>, String>(Some(c))
                } else {
                    Ok::<Option<C>, String>(None)
                },
                Err(e) => r matches Err(m) && m@ == start_error(e@),
            },
    {
        match outcome {
            Ok(c) => {
                if self.child.is_some() {
                    Ok(Some(c))
                } else {
                    self.child = Some(c);
                    Ok(None)
                }
            },
            Err(e) => Err(String::from_str("failed to start daemon: ").concat(e.as_str())),
        }
    }

    /// The held child, lent to the caller so it can ask whether the process
    /// has exited; the child stays held.
    pub fn child_mut(&mut self) -> (r: Option<&mut C>)
        ensures
            final(self).crash_count() == old(self).crash_count(),
            old(self).held() is None ==> r is None && final(self).held() is None,
            old(self).held() matches Some(c) ==> (r matches Some(m) && *m == c && final(self).held()
                == Some(*final(m))),
    {
        self.child.as_mut()
    }

    /// Records that the held child exited on its own, with its exit code
    /// (`None` where it had none, as when killed by a signal). It is no
    /// longer held, and the wait before starting it again is returned: none
    /// after a clean exit (code 0, as after the daemon's wheel self-upgrade),
    /// else a backoff that doubles with each crash in a row. Without a held
    /// child nothing changes and `None` is returned.
    pub fn exited(&mut self, exit_code: Option<i32>) -> (r: Option<u64>)
        ensures
            old(self).held() is None ==> r is None && *final(self) == *old(self),
            old(self).held() is Some ==> final(self).held() is None,
            old(self).held() is Some && exit_code == Some(0i32) ==> {
                &&& r == Some(0u64)
                &&& final(self).crash_count() == 0
            },
            old(self).held() is Some && exit_code != Some(0i32) ==> {
                &&& final(self).crash_count() == if old(self).crash_count() < 6 {
                    (old(self).crash_count() + 1) as u32
                } else {
                    6u32
                }
                &&& r == Some(backoff_secs(final(self).crash_count()))
            },
    {
        if self.child.is_none() {
            return None;
        }
        self.child = None;
        let clean = match exit_code {
            Some(code) => code == 0,
            None => false,
        };
        if clean {
            self.crashes = 0;
            return Some(0);
        }
        if self.crashes < 6 {
            self.crashes = self.crashes + 1;
        } else {
            self.crashes = 6;
        }
        let c = self.crashes;
        let wait: u64 = if c <= 1 {
            2
        } else if c == 2 {
            4
        } else if c == 3 {
            8
        } else if c == 4 {
            16
        } else if c == 5 {
            32
        } else {
            64
        };
        Some(wait)
    }

    /// Stops supervising: hands back the child, if any, for the caller to
    /// kill and reap. Quitting the app stops syncing.
    pub fn stop(&mut self) -> (r: Option<C>)
        ensures
            r == old(self).held(),
            final(self).held() is None,
            final(self).crash_count() == old(self).crash_count(),
    {
        self.child.take()
    }
}

} // verus!
