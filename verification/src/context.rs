//! Return values that pass between a libinput context and its caller.

use vstd::prelude::*;

verus! {

/// What the open callback hands to libinput. `outcome` is what the
/// interface returned, a file descriptor or an errno, or `None` where no
/// interface is installed.
///
/// libinput expects the descriptor, or a negative errno on failure. An
/// errno may be handed in with either sign and goes out negative; zero
/// stays zero. Without an interface the answer is `-1`.
pub open spec fn spec_open_restricted_code(outcome: Option<Result<i32, i32>>) -> int {
    match outcome {
        Some(Ok(fd)) => fd as int,
        Some(Err(errno)) => if errno > 0 {
            -errno
        } else {
            errno as int
        },
        None => -1,
    }
}

/// Computes what the open callback hands to libinput.
pub fn open_restricted_code(outcome: Option<Result<i32, i32>>) -> (r: i32)
    ensures
        r == spec_open_restricted_code(outcome),
        outcome matches Some(Err(_)) ==> r <= 0,
{
    match outcome {
        Some(Ok(fd)) => fd,
        Some(Err(errno)) => {
            if errno > 0 {
                -errno
            } else {
                errno
            }
        },
        None => -1,
    }
}

/// The number by which assigning a seat, or resuming a context, reports
/// `outcome`: `0` for success, `-1` for failure.
pub open spec fn status_raw(outcome: Result<(), ()>) -> int {
    match outcome {
        Ok(_) => 0,
        Err(_) => -1,
    }
}

/// What `code` reports of assigning a seat or of resuming a context, or
/// `None` for a number that is neither `0` nor `-1`: the inverse of
/// `status_raw`.
pub open spec fn status_of(code: i32) -> Option<Result<(), ()>> {
    if code == 0 {
        Some(Ok(()))
    } else if code == -1 {
        Some(Err(()))
    } else {
        None
    }
}

/// `status_of` is the inverse of `status_raw`.
pub proof fn lemma_status_of(code: i32, outcome: Result<(), ()>)
    ensures
        status_of(code) == Some(outcome) <==> status_raw(outcome) == code,
        status_of(code) is None <==> forall|other: Result<(), ()>| #[trigger] status_raw(other)
            != code,
{
    match outcome {
        Ok(unit) => assert(unit == ()),
        Err(unit) => assert(unit == ()),
    }
    if let Some(found) = status_of(code) {
        assert(status_raw(found) == code);
    }
}

/// Reads what came back from assigning a seat or from resuming a context:
/// the outcome that `code` reports, or `None` where it reports none.
pub fn status_result(code: i32) -> (r: Option<Result<(), ()>>)
    ensures
        r == status_of(code),
        r matches Some(outcome) ==> status_raw(outcome) == code,
        r is None ==> forall|outcome: Result<(), ()>| #[trigger] status_raw(outcome) != code,
{
    if code == 0 {
        Some(Ok(()))
    } else if code == -1 {
        Some(Err(()))
    } else {
        None
    }
}

/// The number by which a dispatch reports `outcome`: `0` for success, the
/// negative of the errno for a failure.
pub open spec fn dispatch_raw(outcome: Result<(), i32>) -> int {
    match outcome {
        Ok(_) => 0,
        Err(errno) => -errno,
    }
}

/// Reads what came back from a dispatch: success for `0`, for a negative
/// number the errno that it is the negative of. `None` stands for a number
/// that reports nothing: a positive one, or the one negative number whose
/// errno no `i32` can hold.
pub fn dispatch_result(code: i32) -> (r: Option<Result<(), i32>>)
    ensures
        r is Some <==> i32::MIN < code <= 0,
        r matches Some(outcome) ==> dispatch_raw(outcome) == code,
        r matches Some(Err(errno)) ==> errno > 0,
{
    if code == 0 {
        Some(Ok(()))
    } else if code < 0 && code > i32::MIN {
        Some(Err(-code))
    } else {
        None
    }
}

} // verus!
