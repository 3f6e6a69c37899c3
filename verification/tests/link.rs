use ql_driver::error::QlError;
use ql_driver::driver::link::{ReadRetry, ReadStep, BUF_SIZE, READ_ATTEMPTS};

/// A read on a device whose attempts give `attempts`, one after another.
fn read(length: usize, attempts: Vec<Option<Vec<u8>>>) -> (Result<Vec<u8>, QlError>, usize) {
    assert!(length < BUF_SIZE);
    let mut retry = ReadRetry::new(length);
    let mut made = 0;
    for attempt in attempts {
        made += 1;
        match retry.record(attempt) {
            ReadStep::Complete(bytes) => return (Ok(bytes), made),
            ReadStep::Retry(next) => retry = next,
            ReadStep::TimedOut => return (Err(QlError::ReadTimeout), made),
        }
    }
    panic!("the device made fewer attempts than the read asked for");
}

fn failing_then(failures: usize, last: Option<Vec<u8>>) -> Vec<Option<Vec<u8>>> {
    let mut attempts: Vec<Option<Vec<u8>>> = (0..failures).map(|_| None).collect();
    attempts.push(last);
    attempts
}

#[test]
fn the_link_has_a_buffer_of_64_bytes_and_ten_attempts() {
    assert_eq!(BUF_SIZE, 64);
    assert_eq!(READ_ATTEMPTS, 10);
}

#[test]
fn a_new_read_has_no_failures() {
    let retry = ReadRetry::new(32);
    assert_eq!(retry.length(), 32);
    assert_eq!(retry.failures(), 0);
    let retry = ReadRetry::new(0);
    assert_eq!(retry.length(), 0);
    let retry = ReadRetry::new(63);
    assert_eq!(retry.length(), 63);
}

#[test]
fn a_first_attempt_that_succeeds_completes_the_read() {
    let bytes: Vec<u8> = (0..32).collect();
    assert_eq!(read(32, vec![Some(bytes.clone())]), (Ok(bytes), 1));
}

#[test]
fn a_failed_attempt_asks_for_another() {
    match ReadRetry::new(4).record(None) {
        ReadStep::Retry(next) => {
            assert_eq!(next.length(), 4);
            assert_eq!(next.failures(), 1);
        }
        other => panic!("expected a retry, got {:?}", other),
    }
}

#[test]
fn nine_failures_then_success_returns_the_bytes() {
    let bytes: Vec<u8> = (100..132).collect();
    let (result, made) = read(32, failing_then(9, Some(bytes.clone())));
    assert_eq!(result, Ok(bytes));
    assert_eq!(made, 10);
}

#[test]
fn ten_failures_time_out() {
    let mut attempts = failing_then(9, None);
    attempts.push(Some(vec![0u8; 32]));
    let (result, made) = read(32, attempts);
    assert_eq!(result, Err(QlError::ReadTimeout));
    assert_eq!(made, 10);
}

#[test]
fn success_after_any_number_of_failures_below_ten() {
    for failures in 0..10 {
        let bytes = vec![failures as u8; 5];
        let (result, made) = read(5, failing_then(failures, Some(bytes.clone())));
        assert_eq!(result, Ok(bytes));
        assert_eq!(made, failures + 1);
    }
}

#[test]
fn the_first_success_wins() {
    let attempts = vec![None, Some(vec![1, 1]), Some(vec![2, 2])];
    assert_eq!(read(2, attempts), (Ok(vec![1, 1]), 2));
}

#[test]
fn bytes_of_another_length_are_a_failed_attempt() {
    let attempts = vec![Some(vec![1, 2, 3]), Some(vec![]), Some(vec![1, 2, 3, 4, 5]), Some(vec![9, 8, 7, 6])];
    assert_eq!(read(4, attempts), (Ok(vec![9, 8, 7, 6]), 4));
    let short: Vec<Option<Vec<u8>>> = (0..10).map(|_| Some(vec![0u8; 31])).collect();
    assert_eq!(read(32, short), (Err(QlError::ReadTimeout), 10));
}

#[test]
fn a_read_of_nothing_completes_with_nothing() {
    assert_eq!(read(0, vec![Some(vec![])]), (Ok(vec![]), 1));
    assert_eq!(read(0, vec![None, Some(vec![])]), (Ok(vec![]), 2));
}

#[test]
fn the_tenth_failure_is_the_last() {
    let mut retry = ReadRetry::new(8);
    for failed in 1..10 {
        retry = match retry.record(None) {
            ReadStep::Retry(next) => next,
            other => panic!("expected a retry, got {:?}", other),
        };
        assert_eq!(retry.failures(), failed);
        assert_eq!(retry.length(), 8);
    }
    assert_eq!(retry.record(None), ReadStep::TimedOut);
}

#[test]
fn the_last_attempt_may_still_succeed() {
    let mut retry = ReadRetry::new(1);
    for _ in 0..9 {
        retry = match retry.record(Some(vec![])) {
            ReadStep::Retry(next) => next,
            other => panic!("expected a retry, got {:?}", other),
        };
    }
    assert_eq!(retry.record(Some(vec![0x42])), ReadStep::Complete(vec![0x42]));
}
