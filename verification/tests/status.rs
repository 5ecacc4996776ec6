use z80e::status::{blocking_status, nonblocking_status, run_result, run_status, status_result};
use z80e::{Error, StopReason};

#[test]
fn status_zero_is_success() {
    assert!(blocking_status(0).is_ok());
    assert!(nonblocking_status(0).is_ok());
    assert!(status_result(0, 0, 0, Error::Deadlock).is_ok());
}

#[test]
fn status_codes_by_argument() {
    assert!(matches!(status_result(22, 22, 35, Error::Deadlock), Err(Error::InvalidMutex)));
    assert!(matches!(status_result(35, 22, 35, Error::Deadlock), Err(Error::Deadlock)));
    assert!(matches!(status_result(16, 22, 16, Error::WouldBlock), Err(Error::WouldBlock)));
    assert!(matches!(status_result(1, 22, 35, Error::Deadlock), Err(Error::Other("Unknown error"))));
    assert!(matches!(status_result(7, 7, 7, Error::Deadlock), Err(Error::InvalidMutex)));
}

#[test]
fn platform_codes_are_told_apart() {
    assert!(matches!(blocking_status(libc::EINVAL), Err(Error::InvalidMutex)));
    assert!(matches!(blocking_status(libc::EDEADLK), Err(Error::Deadlock)));
    assert!(matches!(nonblocking_status(libc::EINVAL), Err(Error::InvalidMutex)));
    assert!(matches!(nonblocking_status(libc::EBUSY), Err(Error::WouldBlock)));
    assert!(matches!(blocking_status(-1), Err(Error::Other("Unknown error"))));
    assert!(matches!(nonblocking_status(-1), Err(Error::Other("Unknown error"))));
}

#[test]
fn run_reports_by_count_and_halt_state() {
    assert!(matches!(run_result(12, 22, false, false), StopReason::Done));
    assert!(matches!(run_result(12, 22, true, true), StopReason::Halted(12)));
    assert!(matches!(run_result(12, 22, true, false), StopReason::Hung(12)));
    assert!(matches!(run_result(-22, 22, true, false), StopReason::Error(Error::InvalidMutex)));
    assert!(matches!(run_result(-5, 22, false, false), StopReason::Error(Error::Other("Unknown error"))));
    assert!(matches!(run_status(0, false, true), StopReason::Done));
    assert!(matches!(run_status(-libc::EINVAL, false, true), StopReason::Error(Error::InvalidMutex)));
    assert!(matches!(run_status(9, true, true), StopReason::Halted(9)));
}
