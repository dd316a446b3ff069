//! Principal identity and the owner-only write gate.

use vstd::prelude::*;

verus! {

/// A fixed-size principal identifier, as the hosting environment presents
/// account identities to the registry. The registry never inspects it
/// beyond exact equality.
#[derive(Clone, Copy, Debug, PartialEq, Eq, Structural)]
pub struct AccountId {
    pub id: u128,
}

/// The two ways an update is refused; either one aborts the operation
/// before any state is touched.
#[derive(Clone, Copy, Debug, PartialEq, Eq, Structural)]
pub enum UpdateError {
    /// The caller is not the registry's owner.
    Unauthorized,
    /// The score lies outside `1..=10`.
    InvalidScore,
}

/// Grants the operation exactly when the caller is the owner: exact
/// identity match, no delegation, no role hierarchy.
pub fn authorize(caller: AccountId, owner: AccountId) -> (r: Result<(), UpdateError>)
    ensures
        r is Ok <==> caller == owner,
        r is Err ==> r == Err::<(), UpdateError>(UpdateError::Unauthorized),
{
    if caller == owner {
        Ok(())
    } else {
        Err(UpdateError::Unauthorized)
    }
}

} // verus!
