use greetd::context::Action;
use greetd::context::AlarmOutcome;
use greetd::context::Context;
use greetd::context::GreetdError;
use greetd::context::ReapDisposition;
use greetd::context::ShutdownAction;
use greetd::context::ShutdownPlan;
use greetd::context::Supervision;
use greetd::context::ALARM_FIRST_SECS;
use greetd::context::ALARM_RETRY_SECS;
use greetd::context::EXIT_CLEAN;
use greetd::context::EXIT_LOST_GREETER;
use greetd::session::ServiceKind;
use greetd::session::SessionSpec;
use greetd::session::VtSelection;

fn fresh() -> Context {
    Context::new("/usr/bin/greeter-ui".to_string(), "greeter".to_string(), 2)
}

fn started(pid: i32) -> Context {
    let mut ctx = fresh();
    let launch = ctx.greet().expect("fresh context must accept greet");
    assert_eq!(launch.service, ServiceKind::Greeter);
    ctx.greeter_started(pid);
    ctx
}

fn login_args() -> (String, Vec<u8>, Vec<String>, Vec<(String, String)>) {
    (
        "alice".to_string(),
        b"pw".to_vec(),
        vec!["/bin/sh".to_string()],
        Vec::new(),
    )
}

#[test]
fn greet_builds_greeter_launch() {
    let ctx = fresh();
    let launch: SessionSpec = ctx.greet().expect("greet must succeed with no greeter");
    assert_eq!(launch.service, ServiceKind::Greeter);
    assert_eq!(launch.username, "greeter");
    assert!(launch.password.is_empty());
    assert_eq!(launch.cmd, vec!["/usr/bin/greeter-ui".to_string()]);
    assert!(launch.env.is_empty());
    assert_eq!(launch.vt, 2);
}

#[test]
fn greet_rejected_while_greeter_active() {
    let mut ctx = started(100);
    match ctx.greet() {
        Err(GreetdError::AlreadyActive) => {}
        _ => panic!("greet must fail with AlreadyActive"),
    }
    // State is unchanged: the same greeter is still tracked.
    assert_eq!(ctx.greeter_pid(), Some(100));
    assert_eq!(ctx.session_pid(), None);
    assert!(!ctx.has_pending());
}

#[test]
fn login_without_greeter_fails_and_scrubs() {
    let mut ctx = fresh();
    let (user, mut pw, cmd, env) = login_args();
    let r = ctx.login(user, &mut pw, cmd, env, VtSelection::Current, 0);
    assert_eq!(r, Err(GreetdError::GreeterNotActive));
    assert!(!ctx.has_greeter());
    assert!(!ctx.has_pending());
    // The caller's buffer is overwritten even on failure.
    assert_eq!(pw, vec![0u8, 0u8]);
}

#[test]
fn login_accepts_and_scrubs_password() {
    let mut ctx = started(100);
    let (user, mut pw, cmd, env) = login_args();
    let r = ctx.login(user, &mut pw, cmd, env, VtSelection::Vt(5), 1_000);
    assert_eq!(r, Ok(ALARM_FIRST_SECS));
    assert_eq!(pw, vec![0u8, 0u8]);
    match &ctx.state {
        Supervision::GreeterWithPending { greeter, pending } => {
            assert_eq!(greeter.pid, 100);
            assert_eq!(pending.username, "alice");
            assert_eq!(pending.password, b"pw".to_vec());
            assert_eq!(pending.cmd, vec!["/bin/sh".to_string()]);
            assert!(pending.env.is_empty());
            assert_eq!(pending.vt, 5);
            assert_eq!(pending.accepted_at, 1_000);
        }
        _ => panic!("login must leave a greeter with a pending session"),
    }
}

#[test]
fn login_resolves_current_vt_to_default() {
    let mut ctx = started(100);
    let (user, mut pw, cmd, env) = login_args();
    ctx.login(user, &mut pw, cmd, env, VtSelection::Current, 0)
        .expect("login must succeed");
    match &ctx.state {
        Supervision::GreeterWithPending { pending, .. } => assert_eq!(pending.vt, 2),
        _ => panic!("login must leave a pending session"),
    }
}

#[test]
fn login_with_session_active_fails() {
    let mut ctx = started(100);
    let (user, mut pw, cmd, env) = login_args();
    ctx.login(user, &mut pw, cmd, env, VtSelection::Current, 0)
        .expect("login must succeed");
    // Greeter exits; the pending session launches.
    match ctx.check_children(100) {
        ReapDisposition::StartPending(_) => {}
        _ => panic!("reaping the greeter must launch the pending session"),
    }
    ctx.session_started(200);
    // Bring a fresh greeter up beside the session.
    ctx.greet().expect("greet must succeed with no greeter");
    ctx.greeter_started(300);
    let (user, mut pw, cmd, env) = login_args();
    let r = ctx.login(user, &mut pw, cmd, env, VtSelection::Current, 0);
    assert_eq!(r, Err(GreetdError::SessionAlreadyActive));
    assert_eq!(pw, vec![0u8, 0u8]);
    assert_eq!(ctx.session_pid(), Some(200));
    assert_eq!(ctx.greeter_pid(), Some(300));
}

#[test]
fn alarm_nudges_gently_within_grace() {
    let mut ctx = started(100);
    let (user, mut pw, cmd, env) = login_args();
    ctx.login(user, &mut pw, cmd, env, VtSelection::Current, 1_000)
        .expect("login must succeed");
    // A tick before five seconds have elapsed.
    match ctx.alarm(3_000) {
        AlarmOutcome::Nudge { pid, force, rearm_secs } => {
            assert_eq!(pid, 100);
            assert!(!force);
            assert_eq!(rearm_secs, ALARM_RETRY_SECS);
        }
        _ => panic!("a tick with greeter and pending must nudge"),
    }
    // The first scheduled tick, five seconds after acceptance.
    match ctx.alarm(6_000) {
        AlarmOutcome::Nudge { pid, force, rearm_secs } => {
            assert_eq!(pid, 100);
            assert!(!force);
            assert_eq!(rearm_secs, ALARM_RETRY_SECS);
        }
        _ => panic!("a tick with greeter and pending must nudge"),
    }
}

#[test]
fn handle_confirms_pid_ownership() {
    let handle = greetd::session::ChildHandle {
        pid: 100,
        service: ServiceKind::Greeter,
    };
    assert!(handle.owns_pid(100));
    assert!(!handle.owns_pid(101));
}

#[test]
fn alarm_forces_after_kill_timeout() {
    let mut ctx = started(100);
    let (user, mut pw, cmd, env) = login_args();
    ctx.login(user, &mut pw, cmd, env, VtSelection::Current, 1_000)
        .expect("login must succeed");
    match ctx.alarm(11_001) {
        AlarmOutcome::Nudge { pid, force, .. } => {
            assert_eq!(pid, 100);
            assert!(force);
        }
        _ => panic!("a tick with greeter and pending must nudge"),
    }
}

#[test]
fn alarm_at_exact_timeout_is_still_gentle() {
    let mut ctx = started(100);
    let (user, mut pw, cmd, env) = login_args();
    ctx.login(user, &mut pw, cmd, env, VtSelection::Current, 1_000)
        .expect("login must succeed");
    // Exactly ten seconds elapsed: not yet beyond the cutover.
    match ctx.alarm(11_000) {
        AlarmOutcome::Nudge { force, .. } => assert!(!force),
        _ => panic!("a tick with greeter and pending must nudge"),
    }
}

#[test]
fn second_login_replaces_pending_request() {
    let mut ctx = started(100);
    let (user, mut pw, cmd, env) = login_args();
    ctx.login(user, &mut pw, cmd, env, VtSelection::Current, 0)
        .expect("login must succeed");
    let mut pw2 = b"other".to_vec();
    let r = ctx.login(
        "bob".to_string(),
        &mut pw2,
        vec!["/bin/zsh".to_string()],
        Vec::new(),
        VtSelection::Vt(4),
        2_000,
    );
    assert_eq!(r, Ok(ALARM_FIRST_SECS));
    match &ctx.state {
        Supervision::GreeterWithPending { pending, .. } => {
            assert_eq!(pending.username, "bob");
            assert_eq!(pending.vt, 4);
            assert_eq!(pending.accepted_at, 2_000);
        }
        _ => panic!("the second request must be the pending session"),
    }
}

#[test]
fn alarm_without_pending_is_noop() {
    let ctx = started(100);
    match ctx.alarm(50_000) {
        AlarmOutcome::Idle => {}
        _ => panic!("a tick without a pending session must do nothing"),
    }
}

#[test]
fn reap_greeter_with_pending_starts_session() {
    let mut ctx = started(100);
    let (user, mut pw, cmd, env) = login_args();
    ctx.login(user, &mut pw, cmd, env, VtSelection::Current, 0)
        .expect("login must succeed");
    match ctx.check_children(100) {
        ReapDisposition::StartPending(launch) => {
            assert_eq!(launch.service, ServiceKind::Login);
            assert_eq!(launch.username, "alice");
            assert_eq!(launch.password, b"pw".to_vec());
            assert_eq!(launch.cmd, vec!["/bin/sh".to_string()]);
            assert_eq!(launch.vt, 2);
        }
        _ => panic!("reaping the greeter must launch the pending session"),
    }
    ctx.session_started(200);
    assert_eq!(ctx.session_pid(), Some(200));
    assert_eq!(ctx.greeter_pid(), None);
    assert!(!ctx.has_pending());
}

#[test]
fn reap_greeter_alone_is_fatal() {
    let mut ctx = started(100);
    match ctx.check_children(100) {
        ReapDisposition::FatalNoSupervisor(plan) => {
            assert_eq!(plan, vec![Action::SetTextMode, Action::Exit(EXIT_LOST_GREETER)]);
        }
        _ => panic!("losing the greeter with nothing left must be fatal"),
    }
    assert!(!ctx.has_greeter());
}

#[test]
fn reap_session_restarts_greeter() {
    let mut ctx = started(100);
    let (user, mut pw, cmd, env) = login_args();
    ctx.login(user, &mut pw, cmd, env, VtSelection::Current, 0)
        .expect("login must succeed");
    match ctx.check_children(100) {
        ReapDisposition::StartPending(_) => {}
        _ => panic!("reaping the greeter must launch the pending session"),
    }
    ctx.session_started(200);
    match ctx.check_children(200) {
        ReapDisposition::StartGreeter => {}
        _ => panic!("reaping the session must ask for a fresh greeter"),
    }
    assert_eq!(ctx.session_pid(), None);
    let launch = ctx.greet().expect("greet must succeed after the session died");
    assert_eq!(launch.service, ServiceKind::Greeter);
}

#[test]
fn reap_unknown_pid_is_ignored() {
    let mut ctx = started(100);
    match ctx.check_children(4_321) {
        ReapDisposition::Ignored => {}
        _ => panic!("an unknown pid must be discarded"),
    }
    assert_eq!(ctx.greeter_pid(), Some(100));
}

#[test]
fn session_start_failure_forces_text_mode() {
    let mut ctx = started(100);
    let (user, mut pw, cmd, env) = login_args();
    ctx.login(user, &mut pw, cmd, env, VtSelection::Current, 0)
        .expect("login must succeed");
    match ctx.check_children(100) {
        ReapDisposition::StartPending(_) => {}
        _ => panic!("reaping the greeter must launch the pending session"),
    }
    let plan = ctx.session_start_failed();
    assert_eq!(plan, vec![Action::SetTextMode]);
    assert!(!ctx.has_pending());
    assert!(!ctx.has_greeter());
    assert!(!ctx.has_session());
}

#[test]
fn shutdown_without_greeter_fails() {
    let mut ctx = fresh();
    match ctx.shutdown(ShutdownAction::Poweroff) {
        Err(GreetdError::GreeterNotActive) => {}
        _ => panic!("shutdown must fail with no greeter"),
    }
}

#[test]
fn shutdown_poweroff_runs_command() {
    let mut ctx = started(100);
    match ctx.shutdown(ShutdownAction::Poweroff) {
        Ok(ShutdownPlan::RunCommand(cmd)) => {
            assert_eq!(
                cmd,
                vec!["/bin/sh".to_string(), "-c".to_string(), "poweroff".to_string()]
            );
        }
        _ => panic!("poweroff must run a shutdown command"),
    }
    // The request changes nothing: the greeter is still tracked.
    assert_eq!(ctx.greeter_pid(), Some(100));
}

#[test]
fn shutdown_reboot_runs_command() {
    let mut ctx = started(100);
    match ctx.shutdown(ShutdownAction::Reboot) {
        Ok(ShutdownPlan::RunCommand(cmd)) => {
            assert_eq!(
                cmd,
                vec!["/bin/sh".to_string(), "-c".to_string(), "reboot".to_string()]
            );
        }
        _ => panic!("reboot must run a shutdown command"),
    }
}

#[test]
fn shutdown_exit_terminates_with_clean_status() {
    let mut ctx = started(100);
    match ctx.shutdown(ShutdownAction::Exit) {
        Ok(ShutdownPlan::Terminate(plan)) => {
            assert_eq!(
                plan,
                vec![Action::Shoo(100), Action::SetTextMode, Action::Exit(EXIT_CLEAN)]
            );
        }
        _ => panic!("exit must terminate"),
    }
    assert!(!ctx.has_greeter());
}

#[test]
fn terminate_shoos_session_then_greeter() {
    let mut ctx = started(100);
    let (user, mut pw, cmd, env) = login_args();
    ctx.login(user, &mut pw, cmd, env, VtSelection::Current, 0)
        .expect("login must succeed");
    match ctx.check_children(100) {
        ReapDisposition::StartPending(_) => {}
        _ => panic!("reaping the greeter must launch the pending session"),
    }
    ctx.session_started(200);
    ctx.greet().expect("greet must succeed with no greeter");
    ctx.greeter_started(300);
    let plan = ctx.terminate();
    assert_eq!(
        plan,
        vec![
            Action::Shoo(200),
            Action::Shoo(300),
            Action::SetTextMode,
            Action::Exit(EXIT_CLEAN)
        ]
    );
    assert!(!ctx.has_greeter());
    assert!(!ctx.has_session());
}

// Scenario: a full login handover. The greeter is asked for, launched and
// exits naturally within the grace period; the pending session launches for
// "alice"; when its process dies, a fresh greeter is asked for.
#[test]
fn scenario_login_handover_and_greeter_restart() {
    let mut ctx = fresh();
    let launch = ctx.greet().expect("greet must succeed");
    assert_eq!(launch.cmd, vec!["/usr/bin/greeter-ui".to_string()]);
    ctx.greeter_started(100);
    let mut pw = b"pw".to_vec();
    let r = ctx.login(
        "alice".to_string(),
        &mut pw,
        vec!["/bin/sh".to_string()],
        Vec::new(),
        VtSelection::Current,
        0,
    );
    assert_eq!(r, Ok(ALARM_FIRST_SECS));
    // The greeter exits on its own three seconds in.
    match ctx.check_children(100) {
        ReapDisposition::StartPending(launch) => {
            assert_eq!(launch.username, "alice");
            assert_eq!(launch.cmd, vec!["/bin/sh".to_string()]);
        }
        _ => panic!("reaping the greeter must launch the pending session"),
    }
    ctx.session_started(200);
    assert_eq!(ctx.session_pid(), Some(200));
    // Later the session dies: back to a fresh greeter.
    match ctx.check_children(200) {
        ReapDisposition::StartGreeter => {}
        _ => panic!("reaping the session must ask for a fresh greeter"),
    }
    let relaunch = ctx.greet().expect("greet must succeed after the session died");
    assert_eq!(relaunch.service, ServiceKind::Greeter);
    ctx.greeter_started(300);
    assert_eq!(ctx.greeter_pid(), Some(300));
}

// Scenario: the greeter never exits. Ticks run every second from the first
// nudge; the nudge turns forcible once more than ten seconds have elapsed
// since the request was accepted. Once the greeter's pid is finally reaped,
// the pending session launches.
#[test]
fn scenario_stubborn_greeter_is_killed() {
    let mut ctx = fresh();
    ctx.greet().expect("greet must succeed");
    ctx.greeter_started(100);
    let mut pw = b"pw".to_vec();
    ctx.login(
        "alice".to_string(),
        &mut pw,
        vec!["/bin/sh".to_string()],
        Vec::new(),
        VtSelection::Current,
        0,
    )
    .expect("login must succeed");
    let mut first_force_at = None;
    for secs in 5..=11u64 {
        match ctx.alarm(secs * 1_000) {
            AlarmOutcome::Nudge { pid, force, rearm_secs } => {
                assert_eq!(pid, 100);
                assert_eq!(rearm_secs, ALARM_RETRY_SECS);
                if force && first_force_at.is_none() {
                    first_force_at = Some(secs);
                }
            }
            _ => panic!("ticks with greeter and pending must nudge"),
        }
    }
    // Graceful up to the ten-second mark, forcible on the tick after it.
    assert_eq!(first_force_at, Some(11));
    match ctx.check_children(100) {
        ReapDisposition::StartPending(launch) => assert_eq!(launch.username, "alice"),
        _ => panic!("reaping the greeter must launch the pending session"),
    }
    ctx.session_started(200);
    assert_eq!(ctx.session_pid(), Some(200));
}
