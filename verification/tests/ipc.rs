use hyperspell_desktop::ipc::{recent_limit, status, Launch, LaunchAction, LaunchEvent, LaunchStage};
use hyperspell_desktop::permissions::Permissions;
use hyperspell_desktop::supervisor::Supervisor;

#[test]
fn status_snapshot() {
    let mut sup: Supervisor<u32> = Supervisor::new();
    let s = status(Some("token = \"t\"\nperm_cursor = true\n"), true, &sup);
    assert!(s.logged_in && s.daemon_installed && !s.daemon_running);
    assert!(s.permissions.cursor && !s.permissions.codex);
    sup.spawned(Ok(1)).unwrap();
    let empty = status(None, false, &sup);
    assert!(!empty.logged_in && empty.daemon_running);
    sup.exited(Some(1));
    assert!(!status(None, false, &sup).daemon_running);
    assert_eq!(empty.permissions, Permissions::default());
}

#[test]
fn recent_limit_defaults_to_twenty() {
    assert_eq!(recent_limit(None), 20);
    assert_eq!(recent_limit(Some(3)), 3);
}

fn stage_text(a: &LaunchAction) -> String {
    match a {
        LaunchAction::Stage(t) => t.clone(),
        _ => panic!("expected a progress text"),
    }
}

#[test]
fn unbundled_launch_just_starts_the_daemon() {
    let (mut l, a) = Launch::begin(false);
    assert_eq!(stage_text(&a), "Starting sync\u{2026}");
    assert!(matches!(l.advance(LaunchEvent::Done), LaunchAction::StartSupervisor));
    assert_eq!(stage_text(&l.advance(LaunchEvent::Started(Err("x".to_string())))), "");
    match l.advance(LaunchEvent::Done) {
        LaunchAction::Finish(r) => assert_eq!(r, Err("x".to_string())),
        _ => panic!("expected the finish"),
    }
    assert_eq!(l.stage, LaunchStage::Finished);
}

#[test]
fn bundled_launch_sequence() {
    let (mut l, a) = Launch::begin(true);
    assert_eq!(stage_text(&a), "Setting up the runtime\u{2026}");
    assert!(matches!(l.advance(LaunchEvent::Done), LaunchAction::EnsureVenv));
    let a = l.advance(LaunchEvent::VenvReady(Ok("/h/.hyperspell/venv/bin/hyperspell".to_string())));
    assert_eq!(stage_text(&a), "Linking the CLIs onto your PATH\u{2026}");
    match l.advance(LaunchEvent::Done) {
        LaunchAction::ExposeCli(d) => assert_eq!(d, "/h/.hyperspell/venv/bin/hyperspell"),
        _ => panic!("expected the link step"),
    }
    assert_eq!(stage_text(&l.advance(LaunchEvent::Exposed(Ok(())))), "Installing the brain CLI\u{2026}");
    assert!(matches!(l.advance(LaunchEvent::Done), LaunchAction::InstallBrainCli));
    assert_eq!(stage_text(&l.advance(LaunchEvent::Done)), "Starting sync\u{2026}");
    assert!(matches!(l.advance(LaunchEvent::Done), LaunchAction::StartSupervisor));
    assert_eq!(stage_text(&l.advance(LaunchEvent::Started(Ok(())))), "");
    assert!(matches!(l.advance(LaunchEvent::Done), LaunchAction::Finish(Ok(()))));
}

#[test]
fn venv_failure_stops_before_starting() {
    let (mut l, _) = Launch::begin(true);
    l.advance(LaunchEvent::Done);
    match l.advance(LaunchEvent::VenvReady(Err("uv failed: no space".to_string()))) {
        LaunchAction::Finish(r) => assert_eq!(r, Err("uv failed: no space".to_string())),
        _ => panic!("expected the failure"),
    }
    assert_eq!(l.stage, LaunchStage::Finished);
}

#[test]
fn link_failure_stops_before_starting() {
    let (mut l, _) = Launch::begin(true);
    l.advance(LaunchEvent::Done);
    l.advance(LaunchEvent::VenvReady(Ok("/d".to_string())));
    l.advance(LaunchEvent::Done);
    assert!(matches!(
        l.advance(LaunchEvent::Exposed(Err("denied".to_string()))),
        LaunchAction::Finish(Err(_))
    ));
}
