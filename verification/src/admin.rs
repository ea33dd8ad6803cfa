//! The one decision of the administrative identity-change flow that belongs
//! to the core: a rotation is acknowledged only if the identity actually
//! changed.
//!
//! The administrative client reads the identity before and after asking the
//! service to rotate; transport and key handling stay with the driver.
//! Identities are compared by their public key, represented here as the
//! plain value the comparison reads.

use vstd::prelude::*;

verus! {

/// Why a requested identity rotation is not acknowledged.
#[derive(Clone, Copy, Debug, PartialEq, Eq, Structural)]
pub enum RotationError {
    /// The identity read back equals the identity read before the request:
    /// the rotation did not take effect.
    IdentityUnchanged,
}

/// Acknowledges a rotation exactly when the identity read back (`after`)
/// differs from the identity read before the request (`before`); otherwise
/// reports that the rotation did not take effect.
pub fn confirm_rotation(before: u64, after: u64) -> (r: Result<u64, RotationError>)
    ensures
        r is Ok <==> after != before,
        r is Ok ==> r == Result::<u64, RotationError>::Ok(after),
        r is Err ==> r == Result::<u64, RotationError>::Err(RotationError::IdentityUnchanged),
{
    if after != before {
        Result::Ok(after)
    } else {
        Result::Err(RotationError::IdentityUnchanged)
    }
}

} // verus!
