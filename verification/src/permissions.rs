//! Runtime permission status.
//!
//! On desktop platforms storage and notification permissions are always
//! granted; the mobile-specific query lives with the surrounding
//! application.

use vstd::prelude::*;

verus! {

/// Snapshot of the runtime permissions the player cares about.
#[derive(Debug, Clone, Copy, PartialEq, Eq, Structural)]
pub struct PermissionStatus {
    pub storage: bool,
    pub notifications: bool,
}

/// Report the current permission status.  On the platforms this library
/// targets both permissions are always granted.
pub fn check_permissions() -> (r: PermissionStatus)
    ensures
        r.storage,
        r.notifications,
{
    PermissionStatus { storage: true, notifications: true }
}

} // verus!
