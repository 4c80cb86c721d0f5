//! The authorization step: extracts the caller's identity from a call's
//! origin, or rejects the call before any state is touched.

use vstd::prelude::*;

use crate::pallet::Error;

verus! {

/// An opaque account identifier; nothing is assumed of it beyond equality and
/// a stable representation.
pub type AccountId = u64;

/// The claimed provenance attached to a call. Only `Signed` carries a valid
/// caller identity; the other variants are rejected before any state is touched.
#[derive(Clone, Copy, Debug, PartialEq, Eq, Structural)]
pub enum Origin {
    /// The call carries a valid signature from this account.
    Signed(AccountId),
    /// The call comes from the host runtime itself, not from an account.
    Root,
    /// The call carries no signature at all.
    Unsigned,
}

/// The identity that authorization extracts from `origin`, if any.
pub open spec fn signer_of(origin: Origin) -> Option<AccountId> {
    match origin {
        Origin::Signed(who) => Some(who),
        _ => None,
    }
}

/// Accept a signed origin, yielding its account; reject every other origin.
pub fn ensure_signed(origin: Origin) -> (r: Result<AccountId, Error>)
    ensures
        match signer_of(origin) {
            Some(who) => r == Ok::<AccountId, Error>(who),
            None => r == Err::<AccountId, Error>(Error::Unauthorized),
        },
{
    match origin {
        Origin::Signed(who) => Ok(who),
        _ => Err(Error::Unauthorized),
    }
}

} // verus!
