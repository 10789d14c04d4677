use hcp::supervisor::{
    compose_report, no_command_report, plan_after_spawn, JoinResult, Outcome, StreamKind,
    WaitResult, EXIT_HCP_IO, EXIT_HCP_SPAWN, EXIT_HCP_UNKNOWN,
};

#[test]
fn clean_exit_reports_success() {
    let r = compose_report(&Outcome::Exited(0), b"", b"", false);
    assert_eq!(r.body, b"Command exited with exit code 0\n".to_vec());
    assert_eq!(r.code, 0);
    assert!(!r.log);
}

#[test]
fn failing_exit_carries_the_stdout_tail() {
    let r = compose_report(&Outcome::Exited(2), b"hi\n", b"", false);
    assert!(r
        .body
        .starts_with(b"Command exited with exit code 2\nstdout:\nhi\n"));
    assert_eq!(r.body, b"Command exited with exit code 2\nstdout:\nhi\n\n".to_vec());
    assert_eq!(r.code, 2);
}

#[test]
fn both_tails_are_separated_by_a_blank_line() {
    let r = compose_report(&Outcome::Exited(3), b"out", b"err", false);
    assert_eq!(
        r.body,
        b"Command exited with exit code 3\nstdout:\nout\n\nstderr:\nerr\n".to_vec()
    );
}

#[test]
fn stderr_tail_alone_has_no_blank_line() {
    let r = compose_report(&Outcome::Exited(1), b"", b"oops", false);
    assert_eq!(
        r.body,
        b"Command exited with exit code 1\nstderr:\noops\n".to_vec()
    );
}

#[test]
fn ignoring_the_code_keeps_the_original_text() {
    let r = compose_report(&Outcome::Exited(2), b"", b"", true);
    assert_eq!(r.body, b"Command exited with exit code 2\n".to_vec());
    assert_eq!(r.code, 0);
}

#[test]
fn exit_without_code_maps_to_the_unknown_sentinel() {
    let r = compose_report(&Outcome::ExitedNoCode, b"", b"", false);
    assert_eq!(r.body, b"Command exited without an exit code\n".to_vec());
    assert_eq!(r.code, EXIT_HCP_UNKNOWN);
    let r = compose_report(&Outcome::ExitedNoCode, b"", b"", true);
    assert_eq!(r.code, 0);
}

#[test]
fn spawn_failure_is_logged_with_its_sentinel() {
    let r = compose_report(&Outcome::SpawnFailed(b"no such file".to_vec()), b"", b"", false);
    assert_eq!(r.body, b"Failed to spawn process: no such file".to_vec());
    assert_eq!(r.code, EXIT_HCP_SPAWN);
    assert!(r.log);
}

#[test]
fn wait_and_stream_failures_use_the_io_sentinel() {
    let r = compose_report(&Outcome::WaitFailed(b"boom".to_vec()), b"", b"", false);
    assert_eq!(r.body, b"Failed waiting for process: boom".to_vec());
    assert_eq!(r.code, EXIT_HCP_IO);
    assert!(r.log);

    let r = compose_report(
        &Outcome::StreamReadFailed(StreamKind::Stdout, b"broken pipe".to_vec()),
        b"",
        b"",
        false,
    );
    assert_eq!(r.body, b"Error reading stdout from child: broken pipe".to_vec());
    assert_eq!(r.code, EXIT_HCP_IO);
    assert!(!r.log);

    let r = compose_report(
        &Outcome::StreamReadFailed(StreamKind::Stderr, b"broken pipe".to_vec()),
        b"",
        b"",
        false,
    );
    assert_eq!(r.body, b"Error reading stderr from child: broken pipe".to_vec());
    assert_eq!(r.code, EXIT_HCP_IO);
}

#[test]
fn no_command_is_a_logged_success() {
    let r = no_command_report();
    assert_eq!(r.body, b"No command given".to_vec());
    assert_eq!(r.code, 0);
    assert!(r.log);
}

#[test]
fn every_run_past_spawn_plans_exactly_one_report() {
    // One plan per event combination, each matching the failure taxonomy.
    let r = plan_after_spawn(
        &WaitResult::Status(Some(0)),
        &JoinResult::Tail(Vec::new()),
        &JoinResult::Tail(Vec::new()),
        false,
    );
    assert_eq!(r.body, b"Command exited with exit code 0\n".to_vec());
    assert_eq!(r.code, 0);

    let r = plan_after_spawn(
        &WaitResult::Status(Some(2)),
        &JoinResult::Tail(b"hi\n".to_vec()),
        &JoinResult::Tail(Vec::new()),
        false,
    );
    assert_eq!(r.body, b"Command exited with exit code 2\nstdout:\nhi\n\n".to_vec());
    assert_eq!(r.code, 2);

    let r = plan_after_spawn(
        &WaitResult::Status(None),
        &JoinResult::Tail(Vec::new()),
        &JoinResult::Tail(Vec::new()),
        false,
    );
    assert_eq!(r.code, EXIT_HCP_UNKNOWN);

    let r = plan_after_spawn(
        &WaitResult::WaitError(b"boom".to_vec()),
        &JoinResult::Tail(Vec::new()),
        &JoinResult::Tail(Vec::new()),
        false,
    );
    assert_eq!(r.body, b"Failed waiting for process: boom".to_vec());
    assert_eq!(r.code, EXIT_HCP_IO);

    // A stdout read failure wins over a stderr one; the latter is discarded.
    let r = plan_after_spawn(
        &WaitResult::Status(Some(0)),
        &JoinResult::ReadError(b"lost stdout".to_vec()),
        &JoinResult::ReadError(b"lost stderr".to_vec()),
        false,
    );
    assert_eq!(r.body, b"Error reading stdout from child: lost stdout".to_vec());
    assert_eq!(r.code, EXIT_HCP_IO);

    let r = plan_after_spawn(
        &WaitResult::Status(Some(0)),
        &JoinResult::Tail(Vec::new()),
        &JoinResult::ReadError(b"lost stderr".to_vec()),
        false,
    );
    assert_eq!(r.body, b"Error reading stderr from child: lost stderr".to_vec());
    assert_eq!(r.code, EXIT_HCP_IO);
}
