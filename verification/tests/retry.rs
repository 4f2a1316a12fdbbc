use edenapi::retry::RetryDelay;
use edenapi::retry::RetryState;
use edenapi::retry::RetryStep;
use std::time::Duration;

#[test]
fn success_is_returned_at_once() {
    let s = RetryState::new(3);
    assert!(matches!(s.on_result(true), RetryStep::Return));
}

#[test]
fn failures_are_retried_until_the_limit() {
    let mut s = RetryState::new(2);
    let mut attempts = 0;
    loop {
        attempts += 1;
        match s.on_result(false) {
            RetryStep::Return => break,
            RetryStep::ConsultError { attempt, max_retry_count } => {
                assert_eq!(attempt, attempts - 1);
                assert_eq!(max_retry_count, 2);
                match s.on_delay(Some(Duration::from_millis(1))) {
                    RetryDelay::SleepThenRetry(d) => assert_eq!(d, Duration::from_millis(1)),
                    RetryDelay::Return => panic!("should retry"),
                }
            }
        }
    }
    assert_eq!(attempts, 3);
}

#[test]
fn errors_without_delay_are_returned() {
    let mut s = RetryState::new(5);
    assert!(matches!(s.on_result(false), RetryStep::ConsultError { attempt: 0, max_retry_count: 5 }));
    assert!(matches!(s.on_delay(None), RetryDelay::Return));
    assert_eq!(s.attempt(), 0);
}

#[test]
fn no_retries_means_one_attempt() {
    let s = RetryState::new(0);
    assert!(matches!(s.on_result(false), RetryStep::Return));
}
