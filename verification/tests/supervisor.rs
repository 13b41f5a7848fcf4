use sidecar_supervisor::supervisor::{Action, Command, Supervisor};

fn count_after(actions: &[Action], start: i64) -> i64 {
    let mut n = start;
    for a in actions {
        match a {
            Action::Spawn(_) => n += 1,
            Action::Kill => n -= 1,
            Action::Stay => {}
        }
    }
    n
}

#[test]
fn cold_start_status_then_toggle_then_spawn() {
    // Scenario: cold start reports not live; one toggle reports live and
    // posts Start; the loop then spawns exactly one child.
    let mut sup = Supervisor::new("11111111-1111-4111-8111-111111111111".to_string());
    assert_eq!(sup.get_server_status(), false);

    let (flag, cmd) = sup.toggle_server();
    assert_eq!(flag, true);
    assert_eq!(cmd, Command::Start);
    assert_eq!(sup.get_server_status(), true);

    let out = sup.step(cmd);
    assert_eq!(
        out.action,
        Action::Spawn("11111111-1111-4111-8111-111111111111".to_string())
    );
    assert!(!out.exit_loop);
    assert!(sup.has_child);
}

#[test]
fn toggle_while_running_stops_child() {
    // Scenario: with the child running, one toggle reports not live and
    // posts Stop; the loop then kills the child.
    let mut sup = Supervisor::new("t".to_string());
    let (_, cmd) = sup.toggle_server();
    sup.step(cmd);
    assert!(sup.has_child);

    let (flag, cmd) = sup.toggle_server();
    assert_eq!(flag, false);
    assert_eq!(cmd, Command::Stop);

    let out = sup.step(cmd);
    assert_eq!(out.action, Action::Kill);
    assert!(!out.exit_loop);
    assert!(!sup.has_child);
    assert_eq!(sup.get_server_status(), false);
}

#[test]
fn window_close_end_kills_child_and_exits_loop() {
    // Scenario: closing the main window posts End; the running child is
    // killed and the supervisor loop exits.
    let mut sup = Supervisor::new("t".to_string());
    sup.step(Command::Start);
    assert!(sup.has_child);

    let out = sup.step(Command::End);
    assert_eq!(out.action, Action::Kill);
    assert!(out.exit_loop);
    assert!(!sup.has_child);
}

#[test]
fn end_while_idle_only_exits() {
    let mut sup = Supervisor::new("t".to_string());
    let out = sup.step(Command::End);
    assert_eq!(out.action, Action::Stay);
    assert!(out.exit_loop);
}

#[test]
fn redundant_commands_are_no_ops() {
    let mut sup = Supervisor::new("t".to_string());
    // Stop while idle: nothing happens.
    let out = sup.step(Command::Stop);
    assert_eq!(out.action, Action::Stay);
    assert!(!out.exit_loop);
    // Start while running: nothing happens.
    sup.step(Command::Start);
    let out = sup.step(Command::Start);
    assert_eq!(out.action, Action::Stay);
    assert!(sup.has_child);
}

#[test]
fn single_child_over_a_busy_command_script() {
    // At every point of a long command script the number of live children
    // stays between zero and one.
    let script = [
        Command::Start,
        Command::Start,
        Command::Stop,
        Command::Stop,
        Command::Start,
        Command::Stop,
        Command::Start,
        Command::Start,
        Command::End,
    ];
    let mut sup = Supervisor::new("t".to_string());
    let mut actions = Vec::new();
    for cmd in script {
        let out = sup.step(cmd);
        actions.push(out.action);
        for k in 0..=actions.len() {
            let n = count_after(&actions[..k], 0);
            assert!((0..=1).contains(&n), "live children left the unit range");
        }
        if out.exit_loop {
            break;
        }
    }
    assert_eq!(count_after(&actions, 0), 0, "the script ends with no child");
}

#[test]
fn every_spawn_carries_the_session_token() {
    let token = "22222222-2222-4222-8222-222222222222".to_string();
    let mut sup = Supervisor::new(token.clone());
    let script = [Command::Start, Command::Stop, Command::Start, Command::End];
    for cmd in script {
        let out = sup.step(cmd);
        if let Action::Spawn(t) = out.action {
            assert_eq!(t, token);
        }
    }
}

#[test]
fn spawn_failure_returns_to_idle_without_toggling_the_flag() {
    // A failed spawn is fatal to the attempt: the supervisor goes back to
    // childless. The flag stays as it stands (stale until the next
    // command, a known limitation), and the next Start spawns again.
    let mut sup = Supervisor::new("t".to_string());
    let (_, cmd) = sup.toggle_server();
    sup.step(cmd);
    sup.spawn_failed();
    assert!(!sup.has_child);
    assert_eq!(sup.get_server_status(), true);

    let out = sup.step(Command::Start);
    assert!(matches!(out.action, Action::Spawn(_)));
    assert!(sup.has_child);
}

#[test]
fn toggles_alternate_starting_with_true() {
    let mut sup = Supervisor::new("t".to_string());
    let mut flags = Vec::new();
    for _ in 0..7 {
        let (flag, _) = sup.toggle_server();
        flags.push(flag);
    }
    assert_eq!(flags, vec![true, false, true, false, true, false, true]);
}
