use hyperspell_desktop::bootstrap::{
    find_wheel, is_bundled, is_wheel_name, runtime_dir, runtime_from_resources, Runtime,
    SetupAction, VenvSetup, VenvStage, RUNTIME_VERSION,
};
use hyperspell_desktop::command::{run_result, RunOutcome};

fn names(v: &[&str]) -> Vec<String> {
    v.iter().map(|s| s.to_string()).collect()
}

fn rt() -> Runtime {
    runtime_from_resources("/App/Resources", &names(&["uv", "python", "hyperspell-0.4.2-py3-none-any.whl"]))
}

#[test]
fn runtime_layout_under_resources() {
    let r = rt();
    assert_eq!(runtime_dir("/App/Resources"), "/App/Resources/runtime");
    assert_eq!(r.uv, "/App/Resources/runtime/uv");
    assert_eq!(r.python, "/App/Resources/runtime/python/bin/python3");
    assert_eq!(r.wheel, "/App/Resources/runtime/hyperspell-0.4.2-py3-none-any.whl");
}

#[test]
fn wheel_falls_back_when_none_listed() {
    let r = runtime_from_resources("/R", &Vec::new());
    assert_eq!(r.wheel, "/R/runtime/hyperspell.whl");
    assert_eq!(find_wheel("/R/runtime", &names(&[".whl", "notes.txt", "whl"])), "/R/runtime/hyperspell.whl");
}

#[test]
fn first_wheel_wins() {
    assert_eq!(find_wheel("/b", &names(&["a.txt", "x.whl", "y.whl"])), "/b/x.whl");
}

#[test]
fn wheel_names_follow_path_extension() {
    for n in ["a.whl", ".a.whl", "..whl", ".whl", "whl", "a.whl.bak", "a.WHL", "a.tar.whl"] {
        let ext_is_whl = std::path::Path::new(n).extension().is_some_and(|x| x == "whl");
        assert_eq!(is_wheel_name(n), ext_is_whl, "name {:?}", n);
    }
}

#[test]
fn bundled_needs_all_three_files() {
    let r = rt();
    let all = vec![r.uv.clone(), r.python.clone(), r.wheel.clone()];
    assert!(is_bundled(&r, &all));
    assert!(!is_bundled(&r, &vec![r.uv.clone(), r.wheel.clone()]));
    assert!(!is_bundled(&r, &Vec::new()));
}

#[test]
fn up_to_date_venv_needs_no_work() {
    let mut s = VenvSetup::new(&rt(), "/home/a/.hyperspell");
    assert_eq!(s.daemon_path(), "/home/a/.hyperspell/venv/bin/hyperspell");
    assert_eq!(s.marker_path(), "/home/a/.hyperspell/.runtime-version");
    match s.inspect(true, Some(" 1\n")) {
        SetupAction::Finish(Ok(d)) => assert_eq!(d, "/home/a/.hyperspell/venv/bin/hyperspell"),
        _ => panic!("expected an immediate finish"),
    }
    assert_eq!(s.stage, VenvStage::Finished);
}

#[test]
fn stale_or_missing_marker_rebuilds() {
    for (present, marker) in [(true, Some("2")), (true, None), (false, Some("1")), (true, Some("1 1"))] {
        let mut s = VenvSetup::new(&rt(), "/h/.hyperspell");
        match s.inspect(present, marker) {
            SetupAction::CreateDir(d) => assert_eq!(d, "/h/.hyperspell"),
            _ => panic!("expected a rebuild"),
        }
    }
}

#[test]
fn full_setup_runs_in_order() {
    let r = rt();
    let mut s = VenvSetup::new(&r, "/h/.hyperspell");
    assert!(matches!(s.inspect(false, None), SetupAction::CreateDir(_)));
    match s.advance(Ok(())) {
        SetupAction::Run(c) => {
            assert_eq!(c.program, r.uv);
            assert_eq!(c.args, names(&["venv", "--python", &r.python, "/h/.hyperspell/venv"]));
        }
        _ => panic!("expected the venv build"),
    }
    match s.advance(Ok(())) {
        SetupAction::Run(c) => {
            assert_eq!(c.program, r.uv);
            assert_eq!(
                c.args,
                names(&["pip", "install", "--python", "/h/.hyperspell/venv/bin/python", "--no-cache-dir", &r.wheel])
            );
        }
        _ => panic!("expected the wheel install"),
    }
    match s.advance(Ok(())) {
        SetupAction::WriteFile(p, t) => {
            assert_eq!(p, "/h/.hyperspell/.runtime-version");
            assert_eq!(t, RUNTIME_VERSION);
        }
        _ => panic!("expected the marker"),
    }
    match s.advance(Ok(())) {
        SetupAction::Finish(Ok(d)) => assert_eq!(d, "/h/.hyperspell/venv/bin/hyperspell"),
        _ => panic!("expected the finish"),
    }
    let mut again = VenvSetup::new(&r, "/h/.hyperspell");
    assert!(matches!(again.inspect(true, Some(RUNTIME_VERSION)), SetupAction::Finish(Ok(_))));
}

#[test]
fn failed_step_ends_setup() {
    let mut s = VenvSetup::new(&rt(), "/h/.hyperspell");
    s.inspect(false, None);
    s.advance(Ok(()));
    let err = run_result(
        "/App/Resources/runtime/uv",
        RunOutcome::Exited { success: false, stderr: "boom".to_string() },
    );
    match s.advance(err) {
        SetupAction::Finish(Err(e)) => assert_eq!(e, "/App/Resources/runtime/uv failed: boom"),
        _ => panic!("expected a failure"),
    }
    assert_eq!(s.stage, VenvStage::Finished);
}

#[test]
fn run_results() {
    assert_eq!(run_result("/bin/uv", RunOutcome::Exited { success: true, stderr: "warn".to_string() }), Ok(()));
    assert_eq!(
        run_result("/bin/uv", RunOutcome::SpawnFailed("No such file or directory (os error 2)".to_string())),
        Err("/bin/uv: No such file or directory (os error 2)".to_string())
    );
}

#[test]
fn brain_install_command_line() {
    let r = rt();
    let c = hyperspell_desktop::bootstrap::brain_install_command(&r, "/h/.hyperspell");
    assert_eq!(c.program, r.uv);
    assert_eq!(c.args, names(&["pip", "install", "--python", "/h/.hyperspell/venv/bin/python", "hyperbrain"]));
}

#[test]
fn no_wheel_entry_is_not_bundled() {
    let r = runtime_from_resources("/R", &names(&["uv", "python"]));
    let existing = vec![r.uv.clone(), r.python.clone()];
    assert!(!is_bundled(&r, &existing));
}
