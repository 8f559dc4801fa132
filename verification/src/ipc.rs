//! What the web UI's commands compute: the status snapshot, the limit on
//! recent actions, and the trusted-install-then-supervise sequence behind
//! `start_daemon` and the auto-start on launch. The sequence alternates
//! outside work (emitting progress, building the venv, starting the daemon)
//! with decisions, so it is a state machine the shell drives.

use vstd::prelude::*;
use crate::config::{config_entries, read_table, signed_in, table_logged_in};
use crate::daemon_paths::opt_view;
use crate::permissions::{from_table, permissions_of, Permissions};
use crate::supervisor::Supervisor;

verus! {

/// What the UI shows about the daemon.
pub struct Status {
    /// The daemon is authenticated (device token or API key present).
    pub logged_in: bool,
    /// A daemon binary the app can drive is present on this machine.
    pub daemon_installed: bool,
    /// The daemon process is currently running under our supervisor.
    pub daemon_running: bool,
    pub permissions: Permissions,
}

/// The status, given the config file's text, whether a daemon program is
/// present, and the supervisor (whose record of exited children the shell
/// has brought up to date).
pub fn status<C>(config_text: Option<&str>, daemon_installed: bool, supervisor: &Supervisor<C>) -> (r: Status)
    ensures
        r.logged_in == signed_in(config_entries(opt_view(config_text))),
        r.permissions == permissions_of(config_entries(opt_view(config_text))),
        r.daemon_installed == daemon_installed,
        r.daemon_running == supervisor.held() is Some,
{
    let daemon_running = supervisor.is_running();
    let t = read_table(config_text);
    Status {
        logged_in: table_logged_in(&t),
        daemon_installed,
        daemon_running,
        permissions: from_table(&t),
    }
}

/// How many recent actions to show: the limit asked for, or 20.
pub fn recent_limit(limit: Option<usize>) -> (r: usize)
    ensures
        r == match limit {
            Some(n) => n,
            None => 20,
        },
{
    match limit {
        Some(n) => n,
        None => 20,
    }
}

pub open spec fn setup_text() -> Seq<char> {
    "Setting up the runtime\u{2026}"@
}

pub open spec fn link_text() -> Seq<char> {
    "Linking the CLIs onto your PATH\u{2026}"@
}

pub open spec fn brain_text() -> Seq<char> {
    "Installing the brain CLI\u{2026}"@
}

pub open spec fn start_text() -> Seq<char> {
    "Starting sync\u{2026}"@
}

/// What the launch asks the shell to do next.
pub enum LaunchAction {
    /// Show this progress text (empty: clear the overlay).
    Stage(String),
    /// Build the daemon's venv from the bundled runtime; report its daemon
    /// path or the error.
    EnsureVenv,
    /// Put the CLIs (the given daemon, and `uv`) on `PATH`.
    ExposeCli(String),
    /// Install the brain CLI; best-effort, its outcome is not needed.
    InstallBrainCli,
    /// Start the supervised daemon; report the outcome.
    StartSupervisor,
    /// The launch is over.
    Finish(Result<(), String>),
}

/// What the shell reports after performing an action.
pub enum LaunchEvent {
    /// A progress text was shown, or the brain CLI install was attempted.
    Done,
    /// The venv setup ended: the daemon's path, or why it failed.
    VenvReady(Result<String, String>),
    /// The CLIs were put on `PATH`, or why not.
    Exposed(Result<(), String>),
    /// The supervisor's start ended so.
    Started(Result<(), String>),
}

/// Where a launch stands: after showing the setup text, waiting for the
/// venv, and so on.
#[derive(Debug, Clone, Copy, PartialEq, Eq, Structural)]
pub enum LaunchStage {
    AnnouncingSetup,
    BuildingVenv,
    AnnouncingLink,
    Linking,
    AnnouncingBrain,
    InstallingBrain,
    AnnouncingStart,
    Starting,
    Clearing,
    Finished,
}

/// A launch in progress: its stage, the daemon the venv provided, and the
/// supervisor's outcome once known.
pub struct Launch {
    pub stage: LaunchStage,
    pub daemon: String,
    pub outcome: Result<(), String>,
}

/// A `LaunchAction` with its text taken by view.
pub enum LaunchActionView {
    Stage(Seq<char>),
    EnsureVenv,
    ExposeCli(Seq<char>),
    InstallBrainCli,
    StartSupervisor,
    Finish(Result<(), Seq<char>>),
}

pub open spec fn result_view(r: Result<(), String>) -> Result<(), Seq<char>> {
    match r {
        Ok(u) => Ok(u),
        Err(e) => Err(e@),
    }
}

impl View for LaunchAction {
    type V = LaunchActionView;

    open spec fn view(&self) -> LaunchActionView {
        match self {
            LaunchAction::Stage(t) => LaunchActionView::Stage(t@),
            LaunchAction::EnsureVenv => LaunchActionView::EnsureVenv,
            LaunchAction::ExposeCli(d) => LaunchActionView::ExposeCli(d@),
            LaunchAction::InstallBrainCli => LaunchActionView::InstallBrainCli,
            LaunchAction::StartSupervisor => LaunchActionView::StartSupervisor,
            LaunchAction::Finish(r) => LaunchActionView::Finish(result_view(*r)),
        }
    }
}

/// A launch as the library models it: stage, daemon path, supervisor outcome.
pub open spec fn launch_view(l: Launch) -> (LaunchStage, Seq<char>, Result<(), Seq<char>>) {
    (l.stage, l.daemon@, result_view(l.outcome))
}

/// The event fits the stage: the stages that wait for a result get one.
pub open spec fn fits(stage: LaunchStage, event: LaunchEvent) -> bool {
    match stage {
        LaunchStage::BuildingVenv => event is VenvReady,
        LaunchStage::Linking => event is Exposed,
        LaunchStage::Starting => event is Started,
        LaunchStage::Finished => false,
        _ => true,
    }
}

/// One step of a launch: from the state `l` and the report of the last
/// action, the next state and the action it asks for.
pub open spec fn launch_step(
    l: (LaunchStage, Seq<char>, Result<(), Seq<char>>),
    event: LaunchEvent,
) -> ((LaunchStage, Seq<char>, Result<(), Seq<char>>), LaunchActionView) {
    let (stage, daemon, outcome) = l;
    match stage {
        LaunchStage::AnnouncingSetup => (
            (LaunchStage::BuildingVenv, daemon, outcome),
            LaunchActionView::EnsureVenv,
        ),
        LaunchStage::BuildingVenv => match event {
            LaunchEvent::VenvReady(Ok(d)) => (
                (LaunchStage::AnnouncingLink, d@, outcome),
                LaunchActionView::Stage(link_text()),
            ),
            LaunchEvent::VenvReady(Err(e)) => (
                (LaunchStage::Finished, daemon, outcome),
                LaunchActionView::Finish(Err(e@)),
            ),
            _ => (l, LaunchActionView::EnsureVenv),
        },
        LaunchStage::AnnouncingLink => (
            (LaunchStage::Linking, daemon, outcome),
            LaunchActionView::ExposeCli(daemon),
        ),
        LaunchStage::Linking => match event {
            LaunchEvent::Exposed(Ok(_)) => (
                (LaunchStage::AnnouncingBrain, daemon, outcome),
                LaunchActionView::Stage(brain_text()),
            ),
            LaunchEvent::Exposed(Err(e)) => (
                (LaunchStage::Finished, daemon, outcome),
                LaunchActionView::Finish(Err(e@)),
            ),
            _ => (l, LaunchActionView::ExposeCli(daemon)),
        },
        LaunchStage::AnnouncingBrain => (
            (LaunchStage::InstallingBrain, daemon, outcome),
            LaunchActionView::InstallBrainCli,
        ),
        LaunchStage::InstallingBrain => (
            (LaunchStage::AnnouncingStart, daemon, outcome),
            LaunchActionView::Stage(start_text()),
        ),
        LaunchStage::AnnouncingStart => (
            (LaunchStage::Starting, daemon, outcome),
            LaunchActionView::StartSupervisor,
        ),
        LaunchStage::Starting => match event {
            LaunchEvent::Started(r) => (
                (LaunchStage::Clearing, daemon, result_view(r)),
                LaunchActionView::Stage(Seq::empty()),
            ),
            _ => (l, LaunchActionView::StartSupervisor),
        },
        _ => ((LaunchStage::Finished, daemon, outcome), LaunchActionView::Finish(outcome)),
    }
}

fn text(s: &str) -> (r: String)
    ensures
        r@ == s@,
{
    s.to_string()
}

impl Launch {
    /// Starts a launch. With a bundled runtime the trusted install comes
    /// first; without one (`tauri dev`) the daemon is started directly.
    pub fn begin(bundled: bool) -> (r: (Launch, LaunchAction))
        ensures
            bundled ==> r.0.stage == LaunchStage::AnnouncingSetup && r.1@ == LaunchActionView::Stage(
                setup_text(),
            ),
            !bundled ==> r.0.stage == LaunchStage::AnnouncingStart && r.1@ == LaunchActionView::Stage(
                start_text(),
            ),
            r.0.outcome is Ok,
    {
        if bundled {
            (
                Launch { stage: LaunchStage::AnnouncingSetup, daemon: String::new(), outcome: Ok(()) },
                LaunchAction::Stage(text("Setting up the runtime\u{2026}")),
            )
        } else {
            (
                Launch { stage: LaunchStage::AnnouncingStart, daemon: String::new(), outcome: Ok(()) },
                LaunchAction::Stage(text("Starting sync\u{2026}")),
            )
        }
    }

    /// Takes the report of the last action and names the next one.
    pub fn advance(&mut self, event: LaunchEvent) -> (r: LaunchAction)
        requires
            fits(old(self).stage, event),
        ensures
            (launch_view(*final(self)), r@) == launch_step(launch_view(*old(self)), event),
    {
        match self.stage {
            LaunchStage::AnnouncingSetup => {
                self.stage = LaunchStage::BuildingVenv;
                LaunchAction::EnsureVenv
            },
            LaunchStage::BuildingVenv => match event {
                LaunchEvent::VenvReady(Ok(d)) => {
                    self.stage = LaunchStage::AnnouncingLink;
                    self.daemon = d;
                    LaunchAction::Stage(text("Linking the CLIs onto your PATH\u{2026}"))
                },
                LaunchEvent::VenvReady(Err(e)) => {
                    self.stage = LaunchStage::Finished;
                    LaunchAction::Finish(Err(e))
                },
                _ => LaunchAction::EnsureVenv,
            },
            LaunchStage::AnnouncingLink => {
                self.stage = LaunchStage::Linking;
                LaunchAction::ExposeCli(self.daemon.clone())
            },
            LaunchStage::Linking => match event {
                LaunchEvent::Exposed(Ok(())) => {
                    self.stage = LaunchStage::AnnouncingBrain;
                    LaunchAction::Stage(text("Installing the brain CLI\u{2026}"))
                },
                LaunchEvent::Exposed(Err(e)) => {
                    self.stage = LaunchStage::Finished;
                    LaunchAction::Finish(Err(e))
                },
                _ => LaunchAction::ExposeCli(self.daemon.clone()),
            },
            LaunchStage::AnnouncingBrain => {
                self.stage = LaunchStage::InstallingBrain;
                LaunchAction::InstallBrainCli
            },
            LaunchStage::InstallingBrain => {
                self.stage = LaunchStage::AnnouncingStart;
                LaunchAction::Stage(text("Starting sync\u{2026}"))
            },
            LaunchStage::AnnouncingStart => {
                self.stage = LaunchStage::Starting;
                LaunchAction::StartSupervisor
            },
            LaunchStage::Starting => match event {
                LaunchEvent::Started(r) => {
                    self.stage = LaunchStage::Clearing;
                    self.outcome = r;
                    LaunchAction::Stage(String::new())
                },
                _ => LaunchAction::StartSupervisor,
            },
            _ => {
                self.stage = LaunchStage::Finished;
                let r = match &self.outcome {
                    Ok(()) => Ok(()),
                    Err(e) => Err(e.clone()),
                };
                LaunchAction::Finish(r)
            },
        }
    }
}

/// Starting the supervisor, then clearing the overlay, finishes the launch
/// with the supervisor's outcome.
pub proof fn law_launch_ends_with_start_outcome(
    daemon: Seq<char>,
    before: Result<(), Seq<char>>,
    started: Result<(), String>,
)
    ensures
        launch_step((LaunchStage::AnnouncingStart, daemon, before), LaunchEvent::Done) == (
            (LaunchStage::Starting, daemon, before),
            LaunchActionView::StartSupervisor,
        ),
        launch_step((LaunchStage::Starting, daemon, before), LaunchEvent::Started(started)) == (
            (LaunchStage::Clearing, daemon, result_view(started)),
            LaunchActionView::Stage(Seq::empty()),
        ),
        launch_step((LaunchStage::Clearing, daemon, result_view(started)), LaunchEvent::Done) == (
            (LaunchStage::Finished, daemon, result_view(started)),
            LaunchActionView::Finish(result_view(started)),
        ),
{
}

/// A failed venv build or a failed link ends the launch with that error:
/// the daemon is not started.
pub proof fn law_setup_failure_stops_launch(daemon: Seq<char>, outcome: Result<(), Seq<char>>, e: String)
    ensures
        launch_step((LaunchStage::BuildingVenv, daemon, outcome), LaunchEvent::VenvReady(Err(e))) == (
            (LaunchStage::Finished, daemon, outcome),
            LaunchActionView::Finish(Err(e@)),
        ),
        launch_step((LaunchStage::Linking, daemon, outcome), LaunchEvent::Exposed(Err(e))) == (
            (LaunchStage::Finished, daemon, outcome),
            LaunchActionView::Finish(Err(e@)),
        ),
{
}

/// The brain CLI install is best-effort: whatever is reported, the launch
/// goes on to start the daemon.
pub proof fn law_brain_install_is_best_effort(
    daemon: Seq<char>,
    outcome: Result<(), Seq<char>>,
    a: LaunchEvent,
    b: LaunchEvent,
)
    ensures
        launch_step((LaunchStage::InstallingBrain, daemon, outcome), a) == launch_step(
            (LaunchStage::InstallingBrain, daemon, outcome),
            b,
        ),
        launch_step((LaunchStage::InstallingBrain, daemon, outcome), a).1
            == LaunchActionView::Stage(start_text()),
{
}

/// With a bundled runtime and every step succeeding, the launch builds the
/// venv, links the CLIs of the daemon it built, installs the brain CLI and
/// then announces the start, in that order.
pub proof fn law_bundled_launch_order(d: String, outcome: Result<(), Seq<char>>)
    ensures
        launch_step((LaunchStage::AnnouncingSetup, Seq::empty(), outcome), LaunchEvent::Done).1
            == LaunchActionView::EnsureVenv,
        launch_step((LaunchStage::BuildingVenv, Seq::empty(), outcome), LaunchEvent::VenvReady(Ok(d)))
            == ((LaunchStage::AnnouncingLink, d@, outcome), LaunchActionView::Stage(link_text())),
        launch_step((LaunchStage::AnnouncingLink, d@, outcome), LaunchEvent::Done) == (
            (LaunchStage::Linking, d@, outcome),
            LaunchActionView::ExposeCli(d@),
        ),
        launch_step((LaunchStage::Linking, d@, outcome), LaunchEvent::Exposed(Ok(()))) == (
            (LaunchStage::AnnouncingBrain, d@, outcome),
            LaunchActionView::Stage(brain_text()),
        ),
        launch_step((LaunchStage::AnnouncingBrain, d@, outcome), LaunchEvent::Done) == (
            (LaunchStage::InstallingBrain, d@, outcome),
            LaunchActionView::InstallBrainCli,
        ),
{
}

/// Launching again while the daemon still runs spawns nothing: the
/// supervisor plans no spawn (starting is a no-op that succeeds), a venv
/// built for this runtime needs no work, the shell files already carry the
/// `PATH` line, and the launch ends in success.
pub proof fn law_second_launch_spawns_nothing<C>(
    s: Supervisor<C>,
    c: C,
    daemon: Seq<char>,
    before: Result<(), Seq<char>>,
    rc_text: Seq<char>,
)
    requires
        s.held() == Some(c),
    ensures
        !s.plans_spawn(),
        crate::bootstrap::up_to_date(true, Some("1"@)),
        crate::text::occurs_in(
            crate::shell_path::with_path_line(rc_text),
            crate::shell_path::rc_marker(),
        ),
        launch_step((LaunchStage::Starting, daemon, before), LaunchEvent::Started(Ok(()))) == (
            (LaunchStage::Clearing, daemon, Ok::<(), Seq<char>>(())),
            LaunchActionView::Stage(Seq::empty()),
        ),
        launch_step((LaunchStage::Clearing, daemon, Ok::<(), Seq<char>>(())), LaunchEvent::Done) == (
            (LaunchStage::Finished, daemon, Ok::<(), Seq<char>>(())),
            LaunchActionView::Finish(Ok(())),
        ),
{
    crate::bootstrap::law_written_marker_is_current();
    crate::shell_path::law_path_line_added_once(rc_text);
}

} // verus!
