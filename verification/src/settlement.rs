//! The delegation/settlement protocol.
//!
//! `delegate_session` hands custody of the session record to the fast
//! execution venue; `undelegate_session` takes it back and, in the same
//! step, folds the frozen session counters into the durable profile —
//! the only operation that touches both records. Because settlement
//! demands custody at the fast venue and releases it, the same frozen
//! counters can never be aggregated twice without a fresh
//! `delegate_session`/`enter_game` cycle in between. Only the owner's
//! direct key authorizes any of these operations: session credentials
//! are deliberately not accepted here.
//!
//! The physical custody transfer and the checkpoint replication are the
//! storage venues' work; the caller performs them after the matching
//! operation here has approved and recorded the transition.

use vstd::prelude::*;

use crate::auth::OwnerId;
use crate::errors::GameError;
use crate::profile::{settle, settled, PlayerProfile};
use crate::session::GameSession;

verus! {

/// The session after a successful `delegate_session`: custody at the
/// fast venue, everything else untouched.
pub open spec fn delegated_session(s: GameSession) -> GameSession {
    GameSession { delegated: true, ..s }
}

/// The session after a successful `undelegate_session`: custody back at
/// the durable venue, everything else untouched.
pub open spec fn undelegated_session(s: GameSession) -> GameSession {
    GameSession { delegated: false, ..s }
}

/// Hand custody of the session record to the fast execution venue.
/// Changes no session state besides the custody mark.
///
/// Fails with `InvalidAuth` unless the owner signed directly, and with
/// `AlreadyExists` when the fast venue already has custody; on failure
/// the session is untouched.
pub fn delegate_session(session: &mut GameSession, signer: OwnerId) -> (r: Result<(), GameError>)
    ensures
        signer != old(session).authority ==> r == Err::<(), GameError>(GameError::InvalidAuth)
            && *final(session) == *old(session),
        signer == old(session).authority && old(session).delegated ==> r == Err::<(), GameError>(
            GameError::AlreadyExists,
        ) && *final(session) == *old(session),
        signer == old(session).authority && !old(session).delegated ==> r == Ok::<(), GameError>(())
            && *final(session) == delegated_session(*old(session)),
{
    if signer != session.authority {
        return Err(GameError::InvalidAuth);
    }
    if session.delegated {
        return Err(GameError::AlreadyExists);
    }
    session.delegated = true;
    Ok(())
}

/// Take custody back from the fast venue and settle: fold the four
/// frozen session counters into the profile totals (saturating, widened
/// to 64 bits) and count one more completed game. All-or-nothing: on any
/// failure both records are exactly as they were.
///
/// Fails with `InvalidAuth` unless the owner signed directly; with
/// `SessionStillActive` while a game is in progress (`end_game` must
/// come first); with `NotFound` when the fast venue does not hold
/// custody — in particular when these counters were already settled.
pub fn undelegate_session(
    session: &mut GameSession,
    profile: &mut PlayerProfile,
    signer: OwnerId,
) -> (r: Result<(), GameError>)
    requires
        old(session).authority == old(profile).authority,
    ensures
        signer != old(profile).authority ==> r == Err::<(), GameError>(GameError::InvalidAuth)
            && *final(session) == *old(session) && *final(profile) == *old(profile),
        signer == old(profile).authority && old(session).active ==> r == Err::<(), GameError>(
            GameError::SessionStillActive,
        ) && *final(session) == *old(session) && *final(profile) == *old(profile),
        signer == old(profile).authority && !old(session).active && !old(session).delegated ==> r
            == Err::<(), GameError>(GameError::NotFound) && *final(session) == *old(session)
            && *final(profile) == *old(profile),
        signer == old(profile).authority && !old(session).active && old(session).delegated ==> r
            == Ok::<(), GameError>(()) && *final(session) == undelegated_session(*old(session))
            && *final(profile) == settled(*old(profile), *old(session)),
{
    if signer != profile.authority {
        return Err(GameError::InvalidAuth);
    }
    if session.active {
        return Err(GameError::SessionStillActive);
    }
    if !session.delegated {
        return Err(GameError::NotFound);
    }
    settle(profile, session);
    session.delegated = false;
    Ok(())
}

/// Approve a mid-session checkpoint: a repeatable push of the session's
/// current state to the durable venue for observability. Aggregates
/// nothing, changes nothing, releases no custody; safe to call any
/// number of times.
///
/// Fails with `InvalidAuth` unless the owner signed directly, and with
/// `NotFound` when the fast venue does not hold custody (there is
/// nothing to push back).
pub fn commit_session(session: &GameSession, signer: OwnerId) -> (r: Result<(), GameError>)
    ensures
        signer != session.authority ==> r == Err::<(), GameError>(GameError::InvalidAuth),
        signer == session.authority && !session.delegated ==> r == Err::<(), GameError>(
            GameError::NotFound,
        ),
        signer == session.authority && session.delegated ==> r == Ok::<(), GameError>(()),
{
    if signer != session.authority {
        return Err(GameError::InvalidAuth);
    }
    if !session.delegated {
        return Err(GameError::NotFound);
    }
    Ok(())
}

} // verus!
