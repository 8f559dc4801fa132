//! First-run bootstrap: materialize the daemon's venv from the runtime
//! bundled inside the app (a relocatable CPython, `uv` and the daemon
//! wheel). The venv is built at `~/.hyperspell/venv`, outside the signed app
//! bundle, so the daemon's own wheel self-update keeps working.
//!
//! The library decides; the caller looks at the disk and runs commands.
//! Building the venv alternates the two, so it is a small state machine:
//! each step takes the outcome of the previous action and names the next.

use vstd::prelude::*;
use crate::command::{owned, CommandSpec};
use crate::daemon_paths::{join, join_text};
use crate::text::{ends_with, has_suffix, trim, trimmed, views, str_equal};

verus! {

/// Bump to force a venv rebuild after an app update ships a newer runtime
/// or wheel.
pub const RUNTIME_VERSION: &'static str = "1";

/// The bundled runtime: paths of `uv`, the interpreter and the daemon wheel.
pub struct Runtime {
    pub uv: String,
    pub python: String,
    pub wheel: String,
}

/// `<resources>/runtime`: where the bundled runtime lives.
pub open spec fn runtime_dir_of(resource_dir: Seq<char>) -> Seq<char> {
    join_text(resource_dir, "runtime"@)
}

/// A directory entry named so that its extension is `whl`: a name longer
/// than `.whl` that ends with it.
pub open spec fn wheel_name(name: Seq<char>) -> bool {
    name.len() > 4 && ends_with(name, ".whl"@)
}

/// The wheel a runtime directory offers: the first entry whose extension is
/// `whl`, or `hyperspell.whl` where there is none.
pub open spec fn wheel_choice(base: Seq<char>, names: Seq<Seq<char>>) -> Seq<char>
    decreases names.len(),
{
    if names.len() == 0 {
        join_text(base, "hyperspell.whl"@)
    } else if wheel_name(names[0]) {
        join_text(base, names[0])
    } else {
        wheel_choice(base, names.drop_first())
    }
}

/// The runtime that a resource directory holds, given the names of the
/// entries of its `runtime` directory, in the order the directory lists them.
pub open spec fn runtime_of(resource_dir: Seq<char>, entry_names: Seq<Seq<char>>) -> (
    Seq<char>,
    Seq<char>,
    Seq<char>,
) {
    let base = runtime_dir_of(resource_dir);
    (
        join_text(base, "uv"@),
        join_text(join_text(join_text(base, "python"@), "bin"@), "python3"@),
        wheel_choice(base, entry_names),
    )
}

/// `<resources>/runtime`.
pub fn runtime_dir(resource_dir: &str) -> (r: String)
    ensures
        r@ == runtime_dir_of(resource_dir@),
{
    join(resource_dir, "runtime")
}

/// Whether a directory entry is a wheel file.
pub fn is_wheel_name(name: &str) -> (r: bool)
    ensures
        r == wheel_name(name@),
{
    name.unicode_len() > 4 && has_suffix(name, ".whl")
}

/// Picks the wheel in the runtime directory `base`: the first entry whose
/// extension is `whl`, else `<base>/hyperspell.whl`.
pub fn find_wheel(base: &str, entry_names: &Vec<String>) -> (r: String)
    ensures
        r@ == wheel_choice(base@, views(entry_names@)),
{
    let n = entry_names.len();
    let mut i: usize = 0;
    assert(views(entry_names@).skip(0) =~= views(entry_names@));
    while i < n
        invariant
            n == entry_names@.len(),
            i <= n,
            wheel_choice(base@, views(entry_names@)) == wheel_choice(
                base@,
                views(entry_names@).skip(i as int),
            ),
        decreases n - i,
    {
        let ghost rest = views(entry_names@).skip(i as int);
        assert(rest[0] == entry_names@[i as int]@);
        if is_wheel_name(entry_names[i].as_str()) {
            return join(base, entry_names[i].as_str());
        }
        assert(rest.drop_first() =~= views(entry_names@).skip(i + 1));
        i = i + 1;
    }
    assert(views(entry_names@).skip(n as int) =~= Seq::<Seq<char>>::empty());
    join(base, "hyperspell.whl")
}

/// Resolves the bundled runtime from the app's resource directory, given the
/// names of the entries of `<resources>/runtime` (none where it cannot be
/// listed).
pub fn runtime_from_resources(resource_dir: &str, runtime_entries: &Vec<String>) -> (r: Runtime)
    ensures
        (r.uv@, r.python@, r.wheel@) == runtime_of(resource_dir@, views(runtime_entries@)),
{
    let base = runtime_dir(resource_dir);
    let uv = join(base.as_str(), "uv");
    let py = join(base.as_str(), "python");
    let bin = join(py.as_str(), "bin");
    let python = join(bin.as_str(), "python3");
    let wheel = find_wheel(base.as_str(), runtime_entries);
    Runtime { uv, python, wheel }
}

/// `path` is one of `files`.
pub open spec fn listed(files: Seq<Seq<char>>, path: Seq<char>) -> bool {
    files.contains(path)
}

fn is_listed(files: &Vec<String>, path: &str) -> (r: bool)
    ensures
        r == listed(views(files@), path@),
{
    let mut i: usize = 0;
    while i < files.len()
        invariant
            i <= files@.len(),
            forall|j: int| 0 <= j < i ==> files@[j]@ != path@,
        decreases files@.len() - i,
    {
        if str_equal(files[i].as_str(), path) {
            assert(views(files@)[i as int] == path@);
            return true;
        }
        i = i + 1;
    }
    assert forall|j: int| 0 <= j < views(files@).len() implies views(files@)[j] != path@ by {
        assert(views(files@)[j] == files@[j]@);
    }
    false
}

/// True when a usable bundled runtime is present: `uv`, the interpreter and
/// the wheel are all among the regular files that exist.
pub fn is_bundled(rt: &Runtime, existing_files: &Vec<String>) -> (r: bool)
    ensures
        r == (listed(views(existing_files@), rt.uv@) && listed(views(existing_files@), rt.python@)
            && listed(views(existing_files@), rt.wheel@)),
{
    is_listed(existing_files, rt.uv.as_str()) && is_listed(existing_files, rt.python.as_str())
        && is_listed(existing_files, rt.wheel.as_str())
}

/// `<state>/venv`: the daemon's virtual environment.
pub open spec fn venv_dir_of(state_dir: Seq<char>) -> Seq<char> {
    join_text(state_dir, "venv"@)
}

/// `<state>/venv/bin/hyperspell`: the daemon program the venv provides.
pub open spec fn venv_daemon_of(state_dir: Seq<char>) -> Seq<char> {
    join_text(join_text(venv_dir_of(state_dir), "bin"@), "hyperspell"@)
}

/// `<state>/venv/bin/python`: the venv's interpreter.
pub open spec fn venv_python_of(state_dir: Seq<char>) -> Seq<char> {
    join_text(join_text(venv_dir_of(state_dir), "bin"@), "python"@)
}

/// `<state>/.runtime-version`: records which runtime the venv was built for.
pub open spec fn marker_of(state_dir: Seq<char>) -> Seq<char> {
    join_text(state_dir, ".runtime-version"@)
}

/// The venv is built for this runtime: the daemon program exists and the
/// marker, trimmed, reads as the runtime version. A missing marker reads
/// as empty.
pub open spec fn up_to_date(daemon_is_file: bool, marker_text: Option<Seq<char>>) -> bool {
    daemon_is_file && trimmed(
        match marker_text {
            Some(t) => t,
            None => Seq::empty(),
        },
    ) == "1"@
}

/// `<state>/venv/bin/hyperspell`.
pub fn venv_daemon_path(state_dir: &str) -> (r: String)
    ensures
        r@ == venv_daemon_of(state_dir@),
{
    let venv = join(state_dir, "venv");
    let bin = join(venv.as_str(), "bin");
    join(bin.as_str(), "hyperspell")
}

/// `<state>/venv/bin/python`.
pub fn venv_python_path(state_dir: &str) -> (r: String)
    ensures
        r@ == venv_python_of(state_dir@),
{
    let venv = join(state_dir, "venv");
    let bin = join(venv.as_str(), "bin");
    join(bin.as_str(), "python")
}

/// The command that installs the brain CLI into the daemon's venv with the
/// bundled `uv`.
pub open spec fn brain_install_of(uv: Seq<char>, state_dir: Seq<char>) -> (Seq<char>, Seq<Seq<char>>) {
    (uv, seq!["pip"@, "install"@, "--python"@, venv_python_of(state_dir), "hyperbrain"@])
}

/// Installs the brain CLI into the daemon's venv (best-effort; the daemon
/// also installs it on its first sync).
pub fn brain_install_command(rt: &Runtime, state_dir: &str) -> (r: CommandSpec)
    ensures
        r@ == brain_install_of(rt.uv@, state_dir@),
{
    let py = venv_python_path(state_dir);
    let args = owned(&["pip", "install", "--python", py.as_str(), "hyperbrain"]);
    assert(views(args@) =~= brain_install_of(rt.uv@, state_dir@).1);
    CommandSpec { program: rt.uv.clone(), args }
}

/// What a step of the setup asks the caller to do.
pub enum SetupAction {
    /// Create the directory and its parents.
    CreateDir(String),
    /// Run the command; report `command::run_result` of how it ended.
    Run(CommandSpec),
    /// Write the text to the file, replacing it.
    WriteFile(String, String),
    /// The setup is over: the daemon program's path, or why it failed.
    Finish(Result<String, String>),
}

/// A `SetupAction` with its text taken by view.
pub enum ActionView {
    CreateDir(Seq<char>),
    Run(Seq<char>, Seq<Seq<char>>),
    WriteFile(Seq<char>, Seq<char>),
    Finish(Result<Seq<char>, Seq<char>>),
}

impl View for SetupAction {
    type V = ActionView;

    open spec fn view(&self) -> ActionView {
        match self {
            SetupAction::CreateDir(p) => ActionView::CreateDir(p@),
            SetupAction::Run(c) => ActionView::Run(c.program@, views(c.args@)),
            SetupAction::WriteFile(p, t) => ActionView::WriteFile(p@, t@),
            SetupAction::Finish(Ok(d)) => ActionView::Finish(Ok(d@)),
            SetupAction::Finish(Err(e)) => ActionView::Finish(Err(e@)),
        }
    }
}

/// Where the venv setup stands.
#[derive(Debug, Clone, Copy, PartialEq, Eq, Structural)]
pub enum VenvStage {
    /// Waiting for what the disk says of the daemon and the marker.
    Inspecting,
    /// Asked to create the state directory.
    CreatingDir,
    /// Asked to build the venv with the bundled interpreter.
    MakingVenv,
    /// Asked to install the bundled wheel into the venv.
    Installing,
    /// Asked to record the runtime version.
    WritingMarker,
    /// Done; no further step.
    Finished,
}

/// Ensures `<state>/venv` exists with the bundled daemon installed: a cheap
/// no-op once built for this runtime version.
pub struct VenvSetup {
    pub stage: VenvStage,
    pub state_dir: String,
    pub uv: String,
    pub python: String,
    pub wheel: String,
}

/// The command that builds the venv with the bundled interpreter.
pub open spec fn venv_command(v: VenvSetup) -> (Seq<char>, Seq<Seq<char>>) {
    (v.uv@, seq!["venv"@, "--python"@, v.python@, venv_dir_of(v.state_dir@)])
}

/// The command that installs the bundled wheel into the venv.
pub open spec fn install_command(v: VenvSetup) -> (Seq<char>, Seq<Seq<char>>) {
    (
        v.uv@,
        seq![
            "pip"@,
            "install"@,
            "--python"@,
            venv_python_of(v.state_dir@),
            "--no-cache-dir"@,
            v.wheel@,
        ],
    )
}

/// The stage after `stage` and the action it asks for, given how the
/// previous action went.
pub open spec fn venv_step(v: VenvSetup, outcome: Result<(), Seq<char>>) -> (VenvStage, ActionView) {
    match outcome {
        Err(e) => (VenvStage::Finished, ActionView::Finish(Err(e))),
        Ok(_) => match v.stage {
            VenvStage::CreatingDir => (
                VenvStage::MakingVenv,
                ActionView::Run(venv_command(v).0, venv_command(v).1),
            ),
            VenvStage::MakingVenv => (
                VenvStage::Installing,
                ActionView::Run(install_command(v).0, install_command(v).1),
            ),
            VenvStage::Installing => (
                VenvStage::WritingMarker,
                ActionView::WriteFile(marker_of(v.state_dir@), "1"@),
            ),
            _ => (VenvStage::Finished, ActionView::Finish(Ok(venv_daemon_of(v.state_dir@)))),
        },
    }
}

pub open spec fn outcome_view(o: Result<(), String>) -> Result<(), Seq<char>> {
    match o {
        Ok(u) => Ok(u),
        Err(e) => Err(e@),
    }
}

/// A stage that waits for the outcome of an action.
pub open spec fn working(s: VenvStage) -> bool {
    s != VenvStage::Inspecting && s != VenvStage::Finished
}

impl VenvSetup {
    /// A setup of the venv under `state_dir` from the runtime `rt`.
    pub fn new(rt: &Runtime, state_dir: &str) -> (r: VenvSetup)
        ensures
            r.stage == VenvStage::Inspecting,
            r.state_dir@ == state_dir@,
            r.uv@ == rt.uv@,
            r.python@ == rt.python@,
            r.wheel@ == rt.wheel@,
    {
        VenvSetup {
            stage: VenvStage::Inspecting,
            state_dir: state_dir.to_string(),
            uv: rt.uv.clone(),
            python: rt.python.clone(),
            wheel: rt.wheel.clone(),
        }
    }

    /// The daemon program the venv provides.
    pub fn daemon_path(&self) -> (r: String)
        ensures
            r@ == venv_daemon_of(self.state_dir@),
    {
        venv_daemon_path(self.state_dir.as_str())
    }

    /// The file that records which runtime the venv was built for.
    pub fn marker_path(&self) -> (r: String)
        ensures
            r@ == marker_of(self.state_dir@),
    {
        join(self.state_dir.as_str(), ".runtime-version")
    }

    /// First step: given whether the daemon program is a file and the
    /// marker's text (`None` where it cannot be read), either finish at
    /// once with the daemon's path or ask for the state directory.
    pub fn inspect(&mut self, daemon_is_file: bool, marker_text: Option<&str>) -> (r: SetupAction)
        requires
            old(self).stage == VenvStage::Inspecting,
        ensures
            final(self).state_dir == old(self).state_dir,
            final(self).uv == old(self).uv,
            final(self).python == old(self).python,
            final(self).wheel == old(self).wheel,
            up_to_date(daemon_is_file, crate::daemon_paths::opt_view(marker_text)) ==> {
                &&& final(self).stage == VenvStage::Finished
                &&& r@ == ActionView::Finish(Ok(venv_daemon_of(old(self).state_dir@)))
            },
            !up_to_date(daemon_is_file, crate::daemon_paths::opt_view(marker_text)) ==> {
                &&& final(self).stage == VenvStage::CreatingDir
                &&& r@ == ActionView::CreateDir(old(self).state_dir@)
            },
    {
        let current = match marker_text {
            Some(t) => trim(t),
            None => {
                let e = String::new();
                proof {
                    reveal_strlit("");
                }
                e
            },
        };
        proof {
            if marker_text is None {
                assert(trimmed(Seq::<char>::empty()) =~= Seq::<char>::empty());
            }
        }
        if daemon_is_file && str_equal(current.as_str(), RUNTIME_VERSION) {
            self.stage = VenvStage::Finished;
            SetupAction::Finish(Ok(self.daemon_path()))
        } else {
            self.stage = VenvStage::CreatingDir;
            SetupAction::CreateDir(self.state_dir.clone())
        }
    }

    /// Next step: given how the last action went (`Err` with its message
    /// where it failed), the action to perform next.
    pub fn advance(&mut self, outcome: Result<(), String>) -> (r: SetupAction)
        requires
            working(old(self).stage),
        ensures
            final(self).state_dir == old(self).state_dir,
            final(self).uv == old(self).uv,
            final(self).python == old(self).python,
            final(self).wheel == old(self).wheel,
            (final(self).stage, r@) == venv_step(*old(self), outcome_view(outcome)),
    {
        match outcome {
            Err(e) => {
                self.stage = VenvStage::Finished;
                SetupAction::Finish(Err(e))
            },
            Ok(()) => match self.stage {
                VenvStage::CreatingDir => {
                    self.stage = VenvStage::MakingVenv;
                    let venv = join(self.state_dir.as_str(), "venv");
                    let args = owned(
                        &["venv", "--python", self.python.as_str(), venv.as_str()],
                    );
                    assert(views(args@) =~= venv_command(*old(self)).1);
                    SetupAction::Run(CommandSpec { program: self.uv.clone(), args })
                },
                VenvStage::MakingVenv => {
                    self.stage = VenvStage::Installing;
                    let py = venv_python_path(self.state_dir.as_str());
                    let args = owned(
                        &[
                            "pip",
                            "install",
                            "--python",
                            py.as_str(),
                            "--no-cache-dir",
                            self.wheel.as_str(),
                        ],
                    );
                    assert(views(args@) =~= install_command(*old(self)).1);
                    SetupAction::Run(CommandSpec { program: self.uv.clone(), args })
                },
                VenvStage::Installing => {
                    self.stage = VenvStage::WritingMarker;
                    SetupAction::WriteFile(self.marker_path(), RUNTIME_VERSION.to_string())
                },
                _ => {
                    self.stage = VenvStage::Finished;
                    SetupAction::Finish(Ok(self.daemon_path()))
                },
            },
        }
    }
}

/// The setup moved to `stage`, all else kept.
pub open spec fn at_stage(v: VenvSetup, stage: VenvStage) -> VenvSetup {
    VenvSetup { stage, ..v }
}

/// When every action succeeds, the setup creates the state directory,
/// builds the venv, installs the wheel, records the runtime version and
/// finishes with the daemon's path, in that order.
pub proof fn law_setup_runs_in_order(v: VenvSetup)
    requires
        v.stage == VenvStage::CreatingDir,
    ensures
        venv_step(v, Ok(())) == (
            VenvStage::MakingVenv,
            ActionView::Run(venv_command(v).0, venv_command(v).1),
        ),
        venv_step(at_stage(v, VenvStage::MakingVenv), Ok(())) == (
            VenvStage::Installing,
            ActionView::Run(install_command(v).0, install_command(v).1),
        ),
        venv_step(at_stage(v, VenvStage::Installing), Ok(())) == (
            VenvStage::WritingMarker,
            ActionView::WriteFile(marker_of(v.state_dir@), "1"@),
        ),
        venv_step(at_stage(v, VenvStage::WritingMarker), Ok(())) == (
            VenvStage::Finished,
            ActionView::Finish(Ok(venv_daemon_of(v.state_dir@))),
        ),
{
}

/// A failed action ends the setup with its error, whatever the stage.
pub proof fn law_failure_ends_setup(v: VenvSetup, e: Seq<char>)
    requires
        working(v.stage),
    ensures
        venv_step(v, Err(e)) == (VenvStage::Finished, ActionView::Finish(Err(e))),
{
}

/// The marker a completed setup writes makes the next inspection find the venv
/// up to date, once the daemon program is in place.
pub proof fn law_written_marker_is_current()
    ensures
        up_to_date(true, Some("1"@)),
{
    reveal_strlit("1");
    let one = "1"@;
    assert(!crate::text::is_space(one[0]));
    assert(crate::text::trim_start(one) == one);
    assert(crate::text::trim_end(one) == one);
}

proof fn lemma_no_wheel_entry(base: Seq<char>, names: Seq<Seq<char>>)
    requires
        forall|i: int| 0 <= i < names.len() ==> !wheel_name(#[trigger] names[i]),
    ensures
        wheel_choice(base, names) == join_text(base, "hyperspell.whl"@),
    decreases names.len(),
{
    if names.len() > 0 {
        assert(!wheel_name(names[0]));
        let rest = names.drop_first();
        assert forall|i: int| 0 <= i < rest.len() implies !wheel_name(#[trigger] rest[i]) by {
            assert(rest[i] == names[i + 1]);
        }
        lemma_no_wheel_entry(base, rest);
    }
}

/// A runtime directory with no wheel entry (or none at all, as under
/// `tauri dev`) is never bundled: its runtime names `hyperspell.whl`, which
/// would itself be a wheel entry, so no such file exists. The existing
/// files are taken to agree with the listing: a file directly in the
/// runtime directory is one of its entries.
pub proof fn law_no_wheel_entry_not_bundled(
    resource_dir: Seq<char>,
    entry_names: Seq<Seq<char>>,
    existing_files: Seq<Seq<char>>,
)
    requires
        forall|i: int| 0 <= i < entry_names.len() ==> !wheel_name(#[trigger] entry_names[i]),
        forall|n: Seq<char>|
            #[trigger] existing_files.contains(join_text(runtime_dir_of(resource_dir), n))
                ==> entry_names.contains(n),
    ensures
        !listed(existing_files, runtime_of(resource_dir, entry_names).2),
{
    let base = runtime_dir_of(resource_dir);
    lemma_no_wheel_entry(base, entry_names);
    reveal_strlit("hyperspell.whl");
    reveal_strlit(".whl");
    let w = "hyperspell.whl"@;
    assert(w.subrange(w.len() - 4, w.len() as int) =~= ".whl"@);
    assert(wheel_name(w));
    if existing_files.contains(join_text(base, w)) {
        assert(entry_names.contains(w));
        let i = choose|i: int| 0 <= i < entry_names.len() && entry_names[i] == w;
        assert(!wheel_name(entry_names[i]));
    }
}

} // verus!
