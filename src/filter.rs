//! Notification filter bits for a registry watch.
use vstd::prelude::*;

verus! {

/// Notify when a subkey is added or deleted.
pub const REG_NOTIFY_CHANGE_NAME: u32 = 0x00000001;

/// Notify when an attribute of the key changes.
pub const REG_NOTIFY_CHANGE_ATTRIBUTES: u32 = 0x00000002;

/// Notify when a value of the key is set or deleted.
pub const REG_NOTIFY_CHANGE_LAST_SET: u32 = 0x00000004;

/// Notify when the security descriptor of the key changes.
pub const REG_NOTIFY_CHANGE_SECURITY: u32 = 0x00000008;

/// Keep the registration alive independently of the thread that made it.
pub const REG_NOTIFY_THREAD_AGNOSTIC: u32 = 0x10000000;

/// Every change category together with thread-agnostic delivery.
pub const REG_LEGAL_CHANGE_FILTER: u32 = 0x1000000F;

} // verus!
