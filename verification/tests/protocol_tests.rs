use hcp::protocol::{step, Phase, SupAction, SupEvent};
use hcp::supervisor::{JoinResult, WaitResult, EXIT_HCP_HTTP, EXIT_HCP_SPAWN};

#[test]
fn successful_run_sends_exactly_one_terminal_ping() {
    let mut pings = 0;
    let (p, a) = step(Phase::Init, SupEvent::Begin { has_command: true }, false);
    assert!(matches!(a, SupAction::SendStart));
    let (p, a) = step(p, SupEvent::StartResult { ok: true }, false);
    assert!(matches!(a, SupAction::SpawnChild));
    let (p, a) = step(p, SupEvent::SpawnResult { err: None }, false);
    assert!(matches!(a, SupAction::AwaitChild));
    let (p, a) = step(
        p,
        SupEvent::ChildDone {
            wait: WaitResult::Status(Some(0)),
            stdout_join: JoinResult::Tail(Vec::new()),
            stderr_join: JoinResult::Tail(Vec::new()),
        },
        false,
    );
    let report = match a {
        SupAction::SendTerminal(r) => {
            pings += 1;
            r
        }
        _ => panic!("a finished child earns the terminal ping"),
    };
    assert_eq!(report.body, b"Command exited with exit code 0\n".to_vec());
    assert_eq!(report.code, 0);
    let (p, a) = step(p, SupEvent::TerminalResult { ok: true }, false);
    match a {
        SupAction::Exit(code) => assert_eq!(code, 0),
        _ => panic!("after the terminal ping the run exits"),
    }
    assert!(matches!(p, Phase::Done { code: 0, pinged: true }));
    assert_eq!(pings, 1);
}

#[test]
fn spawn_failure_still_sends_one_terminal_ping() {
    let mut pings = 0;
    let (p, _) = step(Phase::Init, SupEvent::Begin { has_command: true }, false);
    let (p, _) = step(p, SupEvent::StartResult { ok: true }, false);
    let (p, a) = step(
        p,
        SupEvent::SpawnResult {
            err: Some(b"no such file".to_vec()),
        },
        false,
    );
    let report = match a {
        SupAction::SendTerminal(r) => {
            pings += 1;
            r
        }
        _ => panic!("a failed spawn earns the terminal ping"),
    };
    assert_eq!(report.body, b"Failed to spawn process: no such file".to_vec());
    assert_eq!(report.code, EXIT_HCP_SPAWN);
    assert!(report.log);
    let (_, a) = step(p, SupEvent::TerminalResult { ok: true }, false);
    match a {
        SupAction::Exit(code) => assert_eq!(code, EXIT_HCP_SPAWN),
        _ => panic!("after the terminal ping the run exits"),
    }
    assert_eq!(pings, 1);
}

#[test]
fn start_ping_failure_exits_without_a_terminal_ping() {
    let (p, _) = step(Phase::Init, SupEvent::Begin { has_command: true }, false);
    let (p, a) = step(p, SupEvent::StartResult { ok: false }, false);
    match a {
        SupAction::Exit(code) => assert_eq!(code, EXIT_HCP_HTTP),
        _ => panic!("a failed start ping ends the run"),
    }
    assert!(matches!(
        p,
        Phase::Done {
            code: EXIT_HCP_HTTP,
            pinged: false
        }
    ));
}

#[test]
fn no_command_pings_success_and_exits_zero() {
    let (p, a) = step(Phase::Init, SupEvent::Begin { has_command: false }, false);
    let report = match a {
        SupAction::SendTerminal(r) => r,
        _ => panic!("no command earns an immediate terminal ping"),
    };
    assert_eq!(report.body, b"No command given".to_vec());
    assert_eq!(report.code, 0);
    assert!(report.log);
    let (_, a) = step(p, SupEvent::TerminalResult { ok: true }, false);
    match a {
        SupAction::Exit(code) => assert_eq!(code, 0),
        _ => panic!("after the terminal ping the run exits"),
    }
}

#[test]
fn failed_terminal_ping_exits_with_the_http_sentinel() {
    let (p, _) = step(Phase::Init, SupEvent::Begin { has_command: false }, false);
    let (p, a) = step(p, SupEvent::TerminalResult { ok: false }, false);
    match a {
        SupAction::Exit(code) => assert_eq!(code, EXIT_HCP_HTTP),
        _ => panic!("a failed terminal ping ends the run"),
    }
    assert!(matches!(
        p,
        Phase::Done {
            code: EXIT_HCP_HTTP,
            pinged: true
        }
    ));
}

#[test]
fn ignored_exit_code_pings_success_with_the_original_text() {
    let (p, _) = step(Phase::Init, SupEvent::Begin { has_command: true }, true);
    let (p, _) = step(p, SupEvent::StartResult { ok: true }, true);
    let (p, _) = step(p, SupEvent::SpawnResult { err: None }, true);
    let (_, a) = step(
        p,
        SupEvent::ChildDone {
            wait: WaitResult::Status(Some(2)),
            stdout_join: JoinResult::Tail(Vec::new()),
            stderr_join: JoinResult::Tail(Vec::new()),
        },
        true,
    );
    let report = match a {
        SupAction::SendTerminal(r) => r,
        _ => panic!("a finished child earns the terminal ping"),
    };
    assert_eq!(report.body, b"Command exited with exit code 2\n".to_vec());
    assert_eq!(report.code, 0);
}
