use hcp::num::{i32_to_dec, u64_to_dec};
use hcp::report::{decide, is_retryable, PingError, PingStep};

#[test]
fn decimal_rendering_is_exact() {
    assert_eq!(u64_to_dec(0), b"0".to_vec());
    assert_eq!(u64_to_dec(7), b"7".to_vec());
    assert_eq!(u64_to_dec(961), b"961".to_vec());
    assert_eq!(u64_to_dec(50010), b"50010".to_vec());
    assert_eq!(i32_to_dec(0), b"0".to_vec());
    assert_eq!(i32_to_dec(2), b"2".to_vec());
    assert_eq!(i32_to_dec(-5), b"-5".to_vec());
    assert_eq!(i32_to_dec(i32::MAX), b"2147483647".to_vec());
    assert_eq!(i32_to_dec(i32::MIN), b"-2147483648".to_vec());
}

#[test]
fn retryable_means_transport_or_5xx() {
    assert!(is_retryable(&PingError::Status(500)));
    assert!(is_retryable(&PingError::Status(503)));
    assert!(!is_retryable(&PingError::Status(499)));
    assert!(!is_retryable(&PingError::Status(404)));
    assert!(is_retryable(&PingError::Transport(String::from(
        "connection refused"
    ))));
}

#[test]
fn first_retryable_failure_earns_one_two_second_retry() {
    assert_eq!(decide(true, &Ok(())), PingStep::Done);
    assert_eq!(
        decide(true, &Err(PingError::Status(500))),
        PingStep::RetryAfterSecs(2)
    );
    assert_eq!(
        decide(
            true,
            &Err(PingError::Transport(String::from("timed out")))
        ),
        PingStep::RetryAfterSecs(2)
    );
}

#[test]
fn client_errors_and_second_failures_give_up() {
    assert_eq!(decide(true, &Err(PingError::Status(404))), PingStep::GiveUp);
    assert_eq!(decide(false, &Err(PingError::Status(500))), PingStep::GiveUp);
    assert_eq!(
        decide(
            false,
            &Err(PingError::Transport(String::from("timed out")))
        ),
        PingStep::GiveUp
    );
    assert_eq!(decide(false, &Ok(())), PingStep::Done);
}

#[test]
fn describe_names_the_failure() {
    assert_eq!(
        PingError::Status(503).describe(),
        b"http status: 503".to_vec()
    );
    assert_eq!(
        PingError::Transport(String::from("connection refused")).describe(),
        b"connection refused".to_vec()
    );
}
