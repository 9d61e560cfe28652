//! Timing decisions of the polling protocols: when a wait is over, and
//! whether a failed write is tried again.

use vstd::prelude::*;
use crate::error::CommunicationError;

verus! {

/// How often a file-based write is attempted before it is given up.
pub const WRITE_ATTEMPTS: u32 = 5;

/// The pause before a broadcast line is written again, in milliseconds.
pub const BROADCAST_RETRY_PAUSE_MS: u64 = 20;

/// The pause before a message file is written again, in milliseconds.
pub const SEND_RETRY_PAUSE_MS: u64 = 10;

/// The pause between two looks at the shared-memory file, in milliseconds.
pub const SHM_POLL_PAUSE_MS: u64 = 100;

/// Whether a wait that began `elapsed_ms` milliseconds ago is over, given a
/// limit of `timeout_ms` milliseconds.
pub fn wait_expired(elapsed_ms: u128, timeout_ms: u64) -> (r: bool)
    ensures
        r == (elapsed_ms >= timeout_ms),
{
    elapsed_ms >= timeout_ms as u128
}

/// The pause before the next attempt once attempt `attempt` (counted from
/// 0) of `attempts` failed; `None` when it was the last one.
pub fn retry_pause(attempt: u32, attempts: u32, pause_ms: u64) -> (r: Option<u64>)
    ensures
        r == (if attempt + 1 < attempts {
            Some(pause_ms)
        } else {
            None::<u64>
        }),
{
    if attempt < attempts && attempt < attempts - 1 {
        Some(pause_ms)
    } else {
        None
    }
}

/// The error of a server that waited in vain for a message.
pub fn no_message_received() -> (e: CommunicationError)
    ensures
        e matches CommunicationError::Timeout(m) && m@ == "No message received"@,
{
    CommunicationError::Timeout(String::from_str("No message received"))
}

/// The error of a client that waited in vain for a response.
pub fn no_response_received() -> (e: CommunicationError)
    ensures
        e matches CommunicationError::Timeout(m) && m@ == "No response received"@,
{
    CommunicationError::Timeout(String::from_str("No response received"))
}

} // verus!
