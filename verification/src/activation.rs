//! Routing-activation authentication hooks for the simulated DoIP gateway.
//!
//! Kept apart from the UDS seed/key provider: these decide whether a tester may
//! activate routing on a gateway, not which security level it unlocks.

use vstd::prelude::*;

verus! {

/// Always allows routing activation.
#[derive(Debug, Clone, Copy)]
pub struct TestActivationAuthProvider;

impl TestActivationAuthProvider {
    /// Accepts every tester and every OEM-specific payload.
    pub fn authenticate(&mut self, source_address: u16, oem_data: &[u8]) -> (r: Result<(), u8>)
        ensures
            r is Ok,
    {
        Ok(())
    }
}

/// Denies every routing activation with a fixed reason.
#[derive(Debug, Clone, Copy)]
pub struct DenyActivationAuthProvider {
    /// The ISO 13400-2 routing activation response code the denial carries.
    pub reason: u8,
}

impl DenyActivationAuthProvider {
    /// Refuses every tester with `self.reason`.
    pub fn authenticate(&mut self, source_address: u16, oem_data: &[u8]) -> (r: Result<(), u8>)
        ensures
            r == Err::<(), u8>(old(self).reason),
            *final(self) == *old(self),
    {
        Err(self.reason)
    }
}

} // verus!
