use pty_process::{CommandState, Hook, SpawnPlan};

#[test]
fn fresh_state_attaches_all_streams() {
    let mut state = CommandState::new();
    let plan = state.plan_spawn();
    assert_eq!(
        plan,
        SpawnPlan {
            attach_stdin: true,
            attach_stdout: true,
            attach_stderr: true,
            hook: Some(Hook::SessionLeader),
        }
    );
    assert!(state.is_hook_installed());
}

#[test]
fn overridden_stdout_is_left_alone() {
    let mut state = CommandState::new();
    state.stdout();
    let plan = state.plan_spawn();
    assert!(plan.attach_stdin);
    assert!(!plan.attach_stdout);
    assert!(plan.attach_stderr);
    assert_eq!(plan.hook, Some(Hook::SessionLeader));
}

#[test]
fn all_streams_overridden() {
    let mut state = CommandState::new();
    state.stdin();
    state.stdout();
    state.stderr();
    assert!(state.is_stdin_overridden());
    assert!(state.is_stdout_overridden());
    assert!(state.is_stderr_overridden());
    let plan = state.plan_spawn();
    assert!(!plan.attach_stdin);
    assert!(!plan.attach_stdout);
    assert!(!plan.attach_stderr);
}

#[test]
fn custom_hook_chains_after_session_leader() {
    let mut state = CommandState::new();
    state.pre_exec();
    assert!(state.has_custom_pending());
    let plan = state.plan_spawn();
    assert_eq!(plan.hook, Some(Hook::SessionLeaderThenCustom));
    assert!(!state.has_custom_pending());
    assert!(state.is_hook_installed());
}

#[test]
fn second_spawn_keeps_installed_hook() {
    let mut state = CommandState::new();
    let first = state.plan_spawn();
    let second = state.plan_spawn();
    assert_eq!(first.hook, Some(Hook::SessionLeader));
    assert_eq!(second.hook, None);
    assert!(second.attach_stdin && second.attach_stdout && second.attach_stderr);
}

#[test]
fn second_spawn_after_custom_installs_nothing_new() {
    let mut state = CommandState::new();
    state.pre_exec();
    assert_eq!(state.plan_spawn().hook, Some(Hook::SessionLeaderThenCustom));
    assert_eq!(state.plan_spawn().hook, None);
}

#[test]
fn custom_hook_after_spawn_is_chained_again() {
    let mut state = CommandState::new();
    assert_eq!(state.plan_spawn().hook, Some(Hook::SessionLeader));
    state.pre_exec();
    assert_eq!(state.plan_spawn().hook, Some(Hook::SessionLeaderThenCustom));
}
