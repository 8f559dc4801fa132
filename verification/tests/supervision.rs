use hyperspell_desktop::auth::login_command;
use hyperspell_desktop::supervisor::{StartStep, Supervisor};

fn spawn_cmd(s: &mut Supervisor<u32>) -> Vec<String> {
    match s.start() {
        StartStep::Spawn(c) => {
            assert_eq!(c.program, "hyperspell");
            c.args
        }
        StartStep::AlreadyRunning => panic!("expected a spawn"),
    }
}

#[test]
fn start_spawns_once() {
    let mut s: Supervisor<u32> = Supervisor::new();
    assert!(!s.is_running());
    assert_eq!(spawn_cmd(&mut s), vec!["sync".to_string(), "--supervised".to_string()]);
    assert_eq!(s.spawned(Ok(7)), Ok(None));
    assert!(s.is_running());
    assert!(matches!(s.start(), StartStep::AlreadyRunning));
    assert_eq!(s.stop(), Some(7));
}

#[test]
fn extra_child_is_handed_back() {
    let mut s: Supervisor<u32> = Supervisor::new();
    s.spawned(Ok(1)).unwrap();
    assert_eq!(s.spawned(Ok(2)), Ok(Some(2)));
    assert_eq!(s.stop(), Some(1));
}

#[test]
fn failed_spawn_leaves_nothing_running() {
    let mut s: Supervisor<u32> = Supervisor::new();
    spawn_cmd(&mut s);
    let r = s.spawned(Err("No such file or directory (os error 2)".to_string()));
    assert_eq!(r, Err("failed to start daemon: No such file or directory (os error 2)".to_string()));
    assert!(!s.is_running());
    assert!(matches!(s.start(), StartStep::Spawn(_)));
}

#[test]
fn stop_hands_back_the_child() {
    let mut s: Supervisor<u32> = Supervisor::new();
    assert_eq!(s.stop(), None);
    s.spawned(Ok(42)).unwrap();
    assert_eq!(s.stop(), Some(42));
    assert!(!s.is_running());
    assert_eq!(s.stop(), None);
    assert!(matches!(s.start(), StartStep::Spawn(_)));
}

#[test]
fn login_command_line() {
    let c = login_command("acme", "Alice's Mac");
    assert_eq!(c.program, "hyperspell");
    assert_eq!(
        c.args,
        vec!["login", "--json", "--app-slug", "acme", "--name", "Alice's Mac"]
            .into_iter()
            .map(String::from)
            .collect::<Vec<_>>()
    );
}

#[test]
fn crash_backs_off_and_clean_exit_resets() {
    let mut s: Supervisor<u32> = Supervisor::new();
    let mut waits = Vec::new();
    for n in 0..8 {
        s.spawned(Ok(n)).unwrap();
        waits.push(s.exited(Some(1)).unwrap());
        assert!(!s.is_running());
    }
    assert_eq!(waits, vec![2, 4, 8, 16, 32, 64, 64, 64]);
    s.spawned(Ok(9)).unwrap();
    assert_eq!(s.exited(None), Some(64));
    s.spawned(Ok(10)).unwrap();
    assert_eq!(s.exited(Some(0)), Some(0));
    s.spawned(Ok(11)).unwrap();
    assert_eq!(s.exited(Some(-1)), Some(2));
    assert!(matches!(s.start(), StartStep::Spawn(_)));
}

#[test]
fn exit_without_child_changes_nothing() {
    let mut s: Supervisor<u32> = Supervisor::new();
    assert!(s.exited(Some(0)).is_none());
    assert!(!s.is_running());
}

#[test]
fn child_is_lent_and_kept() {
    let mut s: Supervisor<u32> = Supervisor::new();
    assert!(s.child_mut().is_none());
    s.spawned(Ok(5)).unwrap();
    if let Some(c) = s.child_mut() {
        *c = 6;
    }
    assert_eq!(s.stop(), Some(6));
}

#[test]
fn login_errors() {
    assert_eq!(
        hyperspell_desktop::auth::login_spawn_error("not found"),
        "failed to start login: not found"
    );
    assert_eq!(hyperspell_desktop::auth::login_output_error(), "no stdout from login");
}
