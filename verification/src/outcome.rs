//! Reading the results of the platform wait and wake primitives, and the
//! arguments handed to them.

use vstd::prelude::*;

use crate::FutexError;

verus! {

/// The platform's `errno` values that a wait distinguishes.
#[derive(Debug, Clone, Copy, PartialEq, Eq, Structural)]
pub struct ErrnoCodes {
    /// The value did not match, so the thread did not sleep (`EAGAIN`).
    pub would_block: i32,
    /// The timeout elapsed (`ETIMEDOUT`).
    pub timed_out: i32,
    /// A signal interrupted the sleep (`EINTR`).
    pub interrupted: i32,
}

/// The last OS error code, `0` where the platform reported none.
pub open spec fn os_error_code(errno: Option<i32>) -> i32 {
    match errno {
        Some(code) => code,
        None => 0,
    }
}

/// A reported OS error is read as its code, and no error as `0`.
pub proof fn lemma_os_error_code(code: i32)
    ensures
        os_error_code(Some(code)) == code,
        os_error_code(None) == 0,
{
}

/// What a failed wait reports for the error code `errno`. An interrupted
/// sleep counts as a valid (spurious) wakeup.
pub open spec fn errno_outcome(errno: i32, codes: ErrnoCodes) -> Result<(), FutexError> {
    if errno == codes.would_block {
        Err(FutexError::NotEqual)
    } else if errno == codes.timed_out {
        Err(FutexError::Timeout)
    } else if errno == codes.interrupted {
        Ok(())
    } else {
        Err(FutexError::Unknown)
    }
}

fn errno_result(errno: Option<i32>, codes: &ErrnoCodes) -> (r: Result<(), FutexError>)
    ensures
        r == errno_outcome(os_error_code(errno), *codes),
{
    let code = match errno {
        Some(code) => code,
        None => 0,
    };
    if code == codes.would_block {
        Err(FutexError::NotEqual)
    } else if code == codes.timed_out {
        Err(FutexError::Timeout)
    } else if code == codes.interrupted {
        Ok(())
    } else {
        Err(FutexError::Unknown)
    }
}

/// The outcome of a `FUTEX_WAIT` system call (Linux) that returned `result`,
/// `errno` being the last OS error afterwards.
pub fn futex_wait_outcome(result: i64, errno: Option<i32>, codes: &ErrnoCodes) -> (r: Result<(), FutexError>)
    ensures
        r == (if result == 0 {
            Ok(())
        } else {
            errno_outcome(os_error_code(errno), *codes)
        }),
        result == 0 ==> r == Ok::<(), FutexError>(()),
        !(result == 0) && os_error_code(errno) == codes.would_block ==> r == Err::<(), FutexError>(FutexError::NotEqual),
        !(result == 0) && os_error_code(errno) != codes.would_block && os_error_code(errno) == codes.timed_out
            ==> r == Err::<(), FutexError>(FutexError::Timeout),
        !(result == 0) && os_error_code(errno) != codes.would_block && os_error_code(errno) != codes.timed_out
            && os_error_code(errno) == codes.interrupted ==> r == Ok::<(), FutexError>(()),
        !(result == 0) && os_error_code(errno) != codes.would_block && os_error_code(errno) != codes.timed_out
            && os_error_code(errno) != codes.interrupted ==> r == Err::<(), FutexError>(FutexError::Unknown),
{
    if result == 0 {
        Ok(())
    } else {
        errno_result(errno, codes)
    }
}

/// The outcome of a `UMTX_OP_WAIT` operation (FreeBSD) that returned
/// `result`, `errno` being the last OS error afterwards.
pub fn umtx_wait_outcome(result: i32, errno: Option<i32>, codes: &ErrnoCodes) -> (r: Result<(), FutexError>)
    ensures
        r == (if result >= 0 {
            Ok(())
        } else {
            errno_outcome(os_error_code(errno), *codes)
        }),
        result >= 0 ==> r == Ok::<(), FutexError>(()),
        !(result >= 0) && os_error_code(errno) == codes.would_block ==> r == Err::<(), FutexError>(FutexError::NotEqual),
        !(result >= 0) && os_error_code(errno) != codes.would_block && os_error_code(errno) == codes.timed_out
            ==> r == Err::<(), FutexError>(FutexError::Timeout),
        !(result >= 0) && os_error_code(errno) != codes.would_block && os_error_code(errno) != codes.timed_out
            && os_error_code(errno) == codes.interrupted ==> r == Ok::<(), FutexError>(()),
        !(result >= 0) && os_error_code(errno) != codes.would_block && os_error_code(errno) != codes.timed_out
            && os_error_code(errno) != codes.interrupted ==> r == Err::<(), FutexError>(FutexError::Unknown),
{
    if result >= 0 {
        Ok(())
    } else {
        errno_result(errno, codes)
    }
}

/// The outcome of a wait through `os_sync_wait_on_address` (macOS), given
/// whether the value matched when it was compared before the call, the call's
/// `result`, `errno` being the last OS error afterwards and `timed_out` the
/// platform's `ETIMEDOUT`. A mismatched value ends the wait with
/// [`FutexError::NotEqual`], whatever the call reported.
pub fn os_sync_wait_outcome(value_matched: bool, result: i32, errno: Option<i32>, timed_out: i32) -> (r: Result<(), FutexError>)
    ensures
        !value_matched ==> r == Err::<(), FutexError>(FutexError::NotEqual),
        value_matched ==> r == (if result >= 0 {
            Ok(())
        } else if os_error_code(errno) == timed_out {
            Err(FutexError::Timeout)
        } else {
            Err(FutexError::Unknown)
        }),
{
    if !value_matched {
        return Err(FutexError::NotEqual);
    }
    if result >= 0 {
        return Ok(());
    }
    let code = match errno {
        Some(code) => code,
        None => 0,
    };
    if code == timed_out {
        Err(FutexError::Timeout)
    } else {
        Err(FutexError::Unknown)
    }
}

/// The number of woken threads that `os_sync_wake_by_address_all` (macOS)
/// reports, given its result: the call gives no count, so success reports
/// every waiter (`usize::MAX`), and failure (nobody waiting) reports zero.
pub fn os_sync_notify_all_woken(result: i32) -> (r: usize)
    ensures
        r == (if result >= 0 { usize::MAX as int } else { 0 }),
{
    if result >= 0 {
        usize::MAX
    } else {
        0
    }
}

/// One step of waking macOS waiters one at a time with
/// `os_sync_wake_by_address_any`, up to `count`: given how many calls woke a
/// waiter so far and the `result` of the next call, the new number of woken
/// waiters and whether to call again. A failed call means nobody is left.
pub fn os_sync_wake_any_step(woken: usize, count: usize, result: i32) -> (r: (usize, bool))
    requires
        woken < count,
    ensures
        r == (if result < 0 { (woken, false) } else { ((woken + 1) as usize, woken + 1 < count) }),
        r.0 <= count,
{
    if result < 0 {
        (woken, false)
    } else {
        (woken + 1, woken + 1 < count)
    }
}

/// The outcome of a `WaitOnAddress` call (Windows) that reported
/// `succeeded`, `error` being the last OS error afterwards and
/// `timeout_code` the platform's `ERROR_TIMEOUT`.
pub fn wait_on_address_outcome(succeeded: bool, error: Option<i32>, timeout_code: i32) -> (r: Result<(), FutexError>)
    ensures
        r == (if succeeded {
            Ok(())
        } else if os_error_code(error) == timeout_code {
            Err(FutexError::Timeout)
        } else {
            Err(FutexError::Unknown)
        }),
{
    if succeeded {
        return Ok(());
    }
    let code = match error {
        Some(code) => code,
        None => 0,
    };
    if code == timeout_code {
        Err(FutexError::Timeout)
    } else {
        Err(FutexError::Unknown)
    }
}

/// The number of threads a `FUTEX_WAKE` or `UMTX_OP_WAKE` call is asked to wake for a request
/// to wake `count`: the request, capped at `i32::MAX`.
pub fn futex_wake_limit(count: usize) -> (r: i32)
    ensures
        r == (if count <= i32::MAX { count as int } else { i32::MAX as int }),
        0 <= r <= count,
{
    if count <= 0x7fff_ffffusize {
        count as i32
    } else {
        0x7fff_ffffi32
    }
}

/// The number of woken threads that a `FUTEX_WAKE` call returning `result`
/// reports: the count the call returned, and zero when it failed. A failed
/// call (`-1`, the error in `errno`) woke nobody, so it is not read as the
/// magnitude of `-1`; this matches how the other platforms read a failed
/// wake.
pub fn futex_woken(result: i64) -> (r: usize)
    ensures
        r == (if result < 0 { 0 } else { result as usize }),
        0 <= result <= usize::MAX ==> r == result,
{
    if result < 0 {
        0
    } else {
        result as usize
    }
}

/// The number of woken threads that a `UMTX_OP_WAKE` operation waking
/// everyone reports, given its result: the count it returned, "all"
/// (`usize::MAX`) when it returned zero, zero on failure.
pub fn umtx_notify_all_woken(result: i32) -> (r: usize)
    ensures
        r == (if result > 0 {
            result as int
        } else if result == 0 {
            usize::MAX as int
        } else {
            0
        }),
{
    if result > 0 {
        result as usize
    } else if result == 0 {
        usize::MAX
    } else {
        0
    }
}

/// The number of woken threads that a `UMTX_OP_WAKE` operation for a request
/// to wake `count` reports, given its result: the count it returned but no
/// more than `count`, `count` when it returned zero, zero on failure.
pub fn umtx_notify_many_woken(result: i32, count: usize) -> (r: usize)
    ensures
        r == (if result > 0 {
            if result <= count { result as int } else { count as int }
        } else if result == 0 {
            count as int
        } else {
            0
        }),
        r <= count,
{
    if result > 0 {
        let woken = result as usize;
        if woken <= count {
            woken
        } else {
            count
        }
    } else if result == 0 {
        count
    } else {
        0
    }
}

/// The millisecond timeout a `WaitOnAddress` call (Windows) is given for an
/// optional timeout of `timeout_ms` milliseconds: `None` waits forever;
/// a timeout is capped at `u32::MAX - 1`, so that it never reads as the
/// platform's "infinite".
pub fn wait_on_address_millis(timeout_ms: Option<u128>) -> (r: Option<u32>)
    ensures
        timeout_ms is None ==> r is None,
        timeout_ms matches Some(ms) ==> r == Some((if ms <= u32::MAX - 1 { ms as int } else { u32::MAX - 1 }) as u32),
        r matches Some(v) ==> v < u32::MAX,
{
    match timeout_ms {
        None => None,
        Some(ms) => {
            if ms <= 0xffff_fffeu128 {
                Some(ms as u32)
            } else {
                Some(0xffff_fffeu32)
            }
        },
    }
}

/// The nanosecond timeout an `os_sync_wait_on_address_with_timeout` call
/// (macOS) is given for a timeout of `nanos` nanoseconds: capped at
/// `u64::MAX`.
pub fn os_sync_timeout_nanos(nanos: u128) -> (r: u64)
    ensures
        r == (if nanos <= u64::MAX { nanos as int } else { u64::MAX as int }),
{
    if nanos <= 0xffff_ffff_ffff_ffffu128 {
        nanos as u64
    } else {
        0xffff_ffff_ffff_ffffu64
    }
}

} // verus!
