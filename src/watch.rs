//! One watch of a registry key: its timeout, the name of its wait event and
//! the classification of its outcome.
use vstd::prelude::*;
use vstd::string::*;

verus! {

/// The value that asks the wait to block with no time limit.
pub const INFINITE: u32 = 0xFFFFFFFF;

/// How long one watch may block.
#[derive(Debug, Clone, Copy, PartialEq, Eq, Structural)]
pub enum Timeout {
    /// A finite duration in milliseconds; zero is an immediate poll.
    Milli(u32),
    /// No time limit.
    Infinite,
}

/// The number of milliseconds handed to the wait for a timeout.
pub open spec fn timeout_millis_of(t: Timeout) -> u32 {
    match t {
        Timeout::Milli(v) => v,
        Timeout::Infinite => INFINITE,
    }
}

/// The number of milliseconds that the wait receives for `timeout`.
pub fn timeout_millis(timeout: &Timeout) -> (r: u32)
    ensures
        r == timeout_millis_of(*timeout),
{
    match timeout {
        Timeout::Milli(v) => *v,
        Timeout::Infinite => INFINITE,
    }
}

/// What one watch reports: a matching change occurred, or the time ran out.
#[derive(Debug, Clone, Copy, PartialEq, Eq, Structural)]
pub enum WatchResponse {
    Notify,
    Timeout,
}

/// Why a watch or an activation failed.
#[derive(Debug, Clone, Copy, PartialEq, Eq, Structural)]
pub enum WatchError {
    /// The system refused to create the wait event; its error code.
    EventCreationFailed(u32),
    /// The system refused to arm the notification; the status code it returned.
    RegistrationFailed(i32),
    /// The wait itself failed; the system's error code.
    WaitFailed(u32),
    /// The wait object was abandoned before it was signalled.
    WaitAbandoned,
    /// The watcher's registry key was already handed to a worker.
    KeyConsumed,
    /// The watcher has no worker that feeds a sequence.
    NoWorker,
    /// The worker thread could not be started.
    SpawnFailed,
    /// The other end of the notification channel is gone.
    PeerGone,
}

/// The status code with which the system accepts a registration.
pub const ERROR_SUCCESS: i32 = 0;

/// The wait object was signalled.
pub const WAIT_OBJECT_0: u32 = 0x00000000;

/// The wait object was abandoned.
pub const WAIT_ABANDONED: u32 = 0x00000080;

/// The time limit of the wait elapsed.
pub const WAIT_TIMEOUT: u32 = 0x00000102;

/// The wait call failed.
pub const WAIT_FAILED: u32 = 0xFFFFFFFF;

/// The outcome of arming a notification with status code `ret`.
pub open spec fn registration_of(ret: i32) -> Result<(), WatchError> {
    if ret == ERROR_SUCCESS {
        Ok(())
    } else {
        Err(WatchError::RegistrationFailed(ret))
    }
}

/// Accepts the status code of a registration, or reports it as an error.
pub fn check_registration(ret: i32) -> (r: Result<(), WatchError>)
    ensures
        r == registration_of(ret),
{
    if ret == ERROR_SUCCESS {
        Ok(())
    } else {
        Err(WatchError::RegistrationFailed(ret))
    }
}

/// The four codes that a wait on one object can return.
pub open spec fn is_wait_code(code: u32) -> bool {
    code == WAIT_OBJECT_0 || code == WAIT_ABANDONED || code == WAIT_TIMEOUT || code == WAIT_FAILED
}

/// Whether `code` is one that a wait on one object can return.
pub fn known_wait_code(code: u32) -> (r: bool)
    ensures
        r == is_wait_code(code),
{
    code == WAIT_OBJECT_0 || code == WAIT_ABANDONED || code == WAIT_TIMEOUT || code == WAIT_FAILED
}

/// What a watch reports for the wait code `code`; `last_error` is the
/// system's error code, read after the wait.
pub open spec fn wait_outcome_of(code: u32, last_error: u32) -> Result<WatchResponse, WatchError> {
    if code == WAIT_OBJECT_0 {
        Ok(WatchResponse::Notify)
    } else if code == WAIT_TIMEOUT {
        Ok(WatchResponse::Timeout)
    } else if code == WAIT_ABANDONED {
        Err(WatchError::WaitAbandoned)
    } else {
        Err(WatchError::WaitFailed(last_error))
    }
}

/// Classifies the outcome of the wait of one watch.
pub fn classify_wait(code: u32, last_error: u32) -> (r: Result<WatchResponse, WatchError>)
    requires
        is_wait_code(code),
    ensures
        r == wait_outcome_of(code, last_error),
{
    if code == WAIT_OBJECT_0 {
        Ok(WatchResponse::Notify)
    } else if code == WAIT_TIMEOUT {
        Ok(WatchResponse::Timeout)
    } else if code == WAIT_ABANDONED {
        Err(WatchError::WaitAbandoned)
    } else {
        Err(WatchError::WaitFailed(last_error))
    }
}

} // verus!
