//! The authorization guard.
//!
//! Every mutating operation of the core is gated here before any state
//! changes. A request is approved either because the direct signer is the
//! profile owner, or because it presents a session credential that the
//! external identity subsystem has already validated and whose binding
//! (owner and signing key) matches the request.

use vstd::prelude::*;

use crate::errors::GameError;

verus! {

/// A stable principal identity: the 32 bytes of an owner's public key,
/// held as four 64-bit limbs so that the core can compare identities as
/// plain values.
#[derive(Clone, Copy, Debug, PartialEq, Eq, Structural)]
pub struct OwnerId(pub u64, pub u64, pub u64, pub u64);

/// A delegated signing authorization, as the core sees it once the
/// external identity subsystem has verified its signature and lifetime:
/// the owner it is bound to, and the secondary key it lets sign.
#[derive(Clone, Copy, Debug, PartialEq, Eq, Structural)]
pub struct SessionCredential {
    /// The profile owner on whose behalf the credential signs.
    pub authority: OwnerId,
    /// The secondary key the credential authorizes.
    pub session_signer: OwnerId,
}

/// When a request on a profile owned by `owner`, directly signed by
/// `signer`, is approved: either the owner signed it, or the presented
/// credential is bound to the owner and was signed by the request signer.
pub open spec fn auth_ok(owner: OwnerId, signer: OwnerId, credential: Option<SessionCredential>) -> bool {
    signer == owner || match credential {
        Some(c) => c.authority == owner && c.session_signer == signer,
        None => false,
    }
}

/// The guard itself: approves exactly the requests `auth_ok` describes
/// and rejects every other combination with `InvalidAuth`.
pub fn check_auth(owner: OwnerId, signer: OwnerId, credential: Option<SessionCredential>) -> (r: Result<
    (),
    GameError,
>)
    ensures
        auth_ok(owner, signer, credential) ==> r == Ok::<(), GameError>(()),
        !auth_ok(owner, signer, credential) ==> r == Err::<(), GameError>(GameError::InvalidAuth),
{
    if signer == owner {
        Ok(())
    } else {
        match credential {
            Some(c) => {
                if c.authority == owner && c.session_signer == signer {
                    Ok(())
                } else {
                    Err(GameError::InvalidAuth)
                }
            },
            None => Err(GameError::InvalidAuth),
        }
    }
}

} // verus!
