//! The meaning of the status codes of a platform lock, and of a cycle count
//! that may carry one, in the library's results. A host that guards the
//! interrupt line with a lock of the platform reports through these.

use vstd::prelude::*;
use crate::cpu::{spec_stop_reason, stop_reason};
use crate::error::{Error, StopReason};

verus! {

/// The platform's code for an invalid argument, `libc::EINVAL`. Its value
/// differs between platforms, so nothing is claimed of it.
#[verifier::external_body]
fn invalid_code() -> (code: i32) {
    libc::EINVAL
}

/// The platform's code for a deadlock that would occur, `libc::EDEADLK`.
/// Its value differs between platforms, so nothing is claimed of it.
#[verifier::external_body]
fn deadlock_code() -> (code: i32) {
    libc::EDEADLK
}

/// The platform's code for a busy resource, `libc::EBUSY`. Its value
/// differs between platforms, so nothing is claimed of it.
#[verifier::external_body]
fn busy_code() -> (code: i32) {
    libc::EBUSY
}

/// What a status means: 0 is success, `invalid` an unusable lock, `second`
/// the error `other`, and any other status an unknown error. An earlier
/// case wins where codes coincide.
pub open spec fn spec_status_result(status: i32, invalid: i32, second: i32, other: Error) -> Result<
    (),
    Error,
> {
    if status == 0 {
        Ok(())
    } else if status == invalid {
        Err(Error::InvalidMutex)
    } else if status == second {
        Err(other)
    } else {
        Err(Error::Other("Unknown error"))
    }
}

/// The result of an operation that reported `status`, where `invalid` is
/// the code of an unusable lock and `second` that of the error `other`.
#[verifier::when_used_as_spec(spec_status_result)]
pub fn status_result(status: i32, invalid: i32, second: i32, other: Error) -> (result: Result<(), Error>)
    ensures
        result == spec_status_result(status, invalid, second, other),
{
    if status == 0 {
        Ok(())
    } else if status == invalid {
        Err(Error::InvalidMutex)
    } else if status == second {
        Err(other)
    } else {
        Err(Error::Other("Unknown error"))
    }
}

/// What a cycle count means that is negative on failure: the negated code
/// `invalid` is an unusable lock and any other negative count an unknown
/// error; a count that is not negative is reported by the state in which
/// the processor was left.
pub open spec fn spec_run_result(cycles: i32, invalid: i32, halted: bool, iff2: bool) -> StopReason {
    if cycles >= 0 {
        spec_stop_reason(halted, iff2, cycles)
    } else if cycles + invalid == 0 {
        StopReason::Error(Error::InvalidMutex)
    } else {
        StopReason::Error(Error::Other("Unknown error"))
    }
}

/// The report of a run that returned `cycles` and left the processor with
/// the given halt state, where `invalid` is the code of an unusable lock.
#[verifier::when_used_as_spec(spec_run_result)]
pub fn run_result(cycles: i32, invalid: i32, halted: bool, iff2: bool) -> (reason: StopReason)
    ensures
        reason == spec_run_result(cycles, invalid, halted, iff2),
{
    if cycles >= 0 {
        stop_reason(halted, iff2, cycles)
    } else if (cycles as i64) + (invalid as i64) == 0 {
        StopReason::Error(Error::InvalidMutex)
    } else {
        StopReason::Error(Error::Other("Unknown error"))
    }
}

/// The result of a call that waits for the lock, from the status of the
/// platform: success exactly on status 0; else `InvalidMutex`, `Deadlock`
/// or an unknown error, by the platform's own codes.
pub fn blocking_status(status: i32) -> (result: Result<(), Error>)
    ensures
        result is Ok <==> status == 0,
        exists|invalid: i32, deadlock: i32|
            result == spec_status_result(status, invalid, deadlock, Error::Deadlock),
{
    let invalid = invalid_code();
    let deadlock = deadlock_code();
    status_result(status, invalid, deadlock, Error::Deadlock)
}

/// The result of a call that does not wait for the lock, from the status
/// of the platform: success exactly on status 0; else `InvalidMutex`,
/// `WouldBlock` or an unknown error, by the platform's own codes.
pub fn nonblocking_status(status: i32) -> (result: Result<(), Error>)
    ensures
        result is Ok <==> status == 0,
        exists|invalid: i32, busy: i32|
            result == spec_status_result(status, invalid, busy, Error::WouldBlock),
{
    let invalid = invalid_code();
    let busy = busy_code();
    status_result(status, invalid, busy, Error::WouldBlock)
}

/// The report of a run from the cycle count of the platform: a count that
/// is not negative is reported by the halt state, a negative one as an
/// error, by the platform's own code.
pub fn run_status(cycles: i32, halted: bool, iff2: bool) -> (reason: StopReason)
    ensures
        cycles >= 0 ==> reason == spec_stop_reason(halted, iff2, cycles),
        exists|invalid: i32| reason == spec_run_result(cycles, invalid, halted, iff2),
{
    let invalid = invalid_code();
    run_result(cycles, invalid, halted, iff2)
}

} // verus!
