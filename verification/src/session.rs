//! The ephemeral game session and its state machine.
//!
//! A session record is allocated once per player and reused: `enter_game`
//! opens a game and resets the counters, the hot-path actions
//! (`place_block`, `attack`, `kill_entity`) accumulate into them while the
//! game is active, and `end_game` freezes them for settlement. Every
//! mutating call is gated by the authorization guard before any state
//! changes, and a failing call leaves the session exactly as it was.

use vstd::prelude::*;

use crate::auth::{auth_ok, check_auth, OwnerId, SessionCredential};
use crate::errors::GameError;
use crate::MAX_REALM_LEN;

verus! {

/// One player's resettable in-game record.
pub struct GameSession {
    /// The identity this session belongs to; equals the owning profile's
    /// `authority`.
    pub authority: OwnerId,
    /// The realm chosen at `enter_game`; fixed while the game is active.
    pub realm: String,
    /// Blocks placed in the current game.
    pub blocks_placed: u32,
    /// Attacks made in the current game.
    pub attacks: u32,
    /// Entities killed in the current game.
    pub kills: u32,
    /// Score accumulated in the current game.
    pub score: u64,
    /// Whether a game is in progress.
    pub active: bool,
    /// Whether the fast execution venue currently has custody of this
    /// record. Set by `delegate_session`, cleared by
    /// `undelegate_session`; because settlement demands custody and
    /// releases it, the same frozen counters can never be settled twice.
    pub delegated: bool,
}

/// Whether a realm label is within the length bound, measured in bytes
/// of its UTF-8 encoding.
pub open spec fn realm_within_bound(realm: Seq<char>) -> bool {
    vstd::utf8::encode_utf8(realm).len() <= MAX_REALM_LEN
}

/// One hot-path action, with the input that determines its score
/// contribution. The labels the executable calls also carry
/// (`block_type` and the like) are observability data with no effect on
/// any counter, so they do not appear here.
pub enum SessionAction {
    /// One block placed.
    PlaceBlock,
    /// One attack landing `damage` on some target.
    Attack { damage: u8 },
    /// One entity killed, worth `score_reward`.
    KillEntity { score_reward: u64 },
}

/// The score an action contributes: 1 per block, `damage / 2` (integer
/// division, truncating) per attack, `score_reward` per kill.
pub open spec fn action_points(a: SessionAction) -> u64 {
    match a {
        SessionAction::PlaceBlock => 1,
        SessionAction::Attack { damage } => (damage / 2) as u64,
        SessionAction::KillEntity { score_reward } => score_reward,
    }
}

/// The session after one successful hot-path action on `s`: the matching
/// event counter grows by one and the score by `action_points(a)`, both
/// saturating; every other field is untouched.
pub open spec fn action_step(s: GameSession, a: SessionAction) -> GameSession {
    match a {
        SessionAction::PlaceBlock => GameSession {
            blocks_placed: s.blocks_placed.saturating_add(1),
            score: s.score.saturating_add(1),
            ..s
        },
        SessionAction::Attack { damage } => GameSession {
            attacks: s.attacks.saturating_add(1),
            score: s.score.saturating_add((damage / 2) as u64),
            ..s
        },
        SessionAction::KillEntity { score_reward } => GameSession {
            kills: s.kills.saturating_add(1),
            score: s.score.saturating_add(score_reward),
            ..s
        },
    }
}

/// The session after a successful `enter_game` on `s`: bound to `owner`,
/// labelled `realm`, all four counters reset to zero, active, custody
/// unchanged.
pub open spec fn entered(s: GameSession, owner: OwnerId, realm: String) -> GameSession {
    GameSession {
        authority: owner,
        realm: realm,
        blocks_placed: 0,
        attacks: 0,
        kills: 0,
        score: 0,
        active: true,
        ..s
    }
}

/// The session after a successful `end_game` on `s`: no longer active,
/// counters frozen as they stand.
pub open spec fn ended(s: GameSession) -> GameSession {
    GameSession { active: false, ..s }
}

impl GameSession {
    /// The session record's own invariant: its realm label respects the
    /// length bound. Established at allocation and by `enter_game`,
    /// preserved by every other operation.
    pub open spec fn wf(self) -> bool {
        realm_within_bound(self.realm@)
    }

    /// Allocate the (single, reusable) session record for `owner`:
    /// no game in progress, nothing accumulated, custody at the durable
    /// venue.
    pub fn new(owner: OwnerId) -> (s: GameSession)
        ensures
            s.authority == owner,
            s.realm@ == Seq::<char>::empty(),
            s.blocks_placed == 0,
            s.attacks == 0,
            s.kills == 0,
            s.score == 0,
            !s.active,
            !s.delegated,
            s.wf(),
    {
        GameSession {
            authority: owner,
            realm: String::new(),
            blocks_placed: 0,
            attacks: 0,
            kills: 0,
            score: 0,
            active: false,
            delegated: false,
        }
    }
}

/// Open a game: bind the session to the profile owner, set the realm,
/// zero all four counters — whatever they held — and mark the session
/// active.
///
/// Fails with `InvalidAuth` when neither the owner key nor the presented
/// credential authorizes `signer`; with `InvalidRealm` when the label
/// exceeds `MAX_REALM_LEN` bytes; with `SessionAlreadyActive` when a game
/// is already in progress (it must be ended first). On failure the
/// session is untouched.
pub fn enter_game(
    session: &mut GameSession,
    profile: &crate::profile::PlayerProfile,
    signer: OwnerId,
    credential: Option<SessionCredential>,
    realm: String,
) -> (r: Result<(), GameError>)
    ensures
        !auth_ok(profile.authority, signer, credential) ==> r == Err::<(), GameError>(
            GameError::InvalidAuth,
        ) && *final(session) == *old(session),
        auth_ok(profile.authority, signer, credential) && !realm_within_bound(realm@) ==> r == Err::<
            (),
            GameError,
        >(GameError::InvalidRealm) && *final(session) == *old(session),
        auth_ok(profile.authority, signer, credential) && realm_within_bound(realm@) && old(
            session,
        ).active ==> r == Err::<(), GameError>(GameError::SessionAlreadyActive) && *final(session)
            == *old(session),
        auth_ok(profile.authority, signer, credential) && realm_within_bound(realm@) && !old(
            session,
        ).active ==> r == Ok::<(), GameError>(()) && *final(session) == entered(
            *old(session),
            profile.authority,
            realm,
        ),
        r is Ok ==> final(session).wf(),
{
    check_auth(profile.authority, signer, credential)?;
    if realm.as_str().as_bytes().len() > MAX_REALM_LEN {
        return Err(GameError::InvalidRealm);
    }
    if session.active {
        return Err(GameError::SessionAlreadyActive);
    }
    session.authority = profile.authority;
    session.realm = realm;
    session.blocks_placed = 0;
    session.attacks = 0;
    session.kills = 0;
    session.score = 0;
    session.active = true;
    Ok(())
}

/// Record one placed block: `blocks_placed` and `score` each grow by 1,
/// saturating.
///
/// Fails with `InvalidAuth` on a bad guard and `NoActiveSession` when no
/// game is in progress; on failure the session is untouched.
/// `_block_type` is an opaque label kept for observability only; it has
/// no effect on scoring.
pub fn place_block(
    session: &mut GameSession,
    profile: &crate::profile::PlayerProfile,
    signer: OwnerId,
    credential: Option<SessionCredential>,
    _block_type: String,
) -> (r: Result<(), GameError>)
    ensures
        !auth_ok(profile.authority, signer, credential) ==> r == Err::<(), GameError>(
            GameError::InvalidAuth,
        ) && *final(session) == *old(session),
        auth_ok(profile.authority, signer, credential) && !old(session).active ==> r == Err::<
            (),
            GameError,
        >(GameError::NoActiveSession) && *final(session) == *old(session),
        auth_ok(profile.authority, signer, credential) && old(session).active ==> r == Ok::<
            (),
            GameError,
        >(()) && *final(session) == action_step(*old(session), SessionAction::PlaceBlock),
{
    check_auth(profile.authority, signer, credential)?;
    if !session.active {
        return Err(GameError::NoActiveSession);
    }
    session.blocks_placed = session.blocks_placed.saturating_add(1);
    session.score = session.score.saturating_add(1);
    Ok(())
}

/// Record one attack: `attacks` grows by 1 and `score` by `damage / 2`
/// (integer division, truncating — a hit with `damage` 0 or 1 still
/// counts as an attack but scores nothing), both saturating.
///
/// Fails with `InvalidAuth` on a bad guard and `NoActiveSession` when no
/// game is in progress; on failure the session is untouched.
/// `_target_type` is an opaque label kept for observability only.
pub fn attack(
    session: &mut GameSession,
    profile: &crate::profile::PlayerProfile,
    signer: OwnerId,
    credential: Option<SessionCredential>,
    _target_type: String,
    damage: u8,
) -> (r: Result<(), GameError>)
    ensures
        !auth_ok(profile.authority, signer, credential) ==> r == Err::<(), GameError>(
            GameError::InvalidAuth,
        ) && *final(session) == *old(session),
        auth_ok(profile.authority, signer, credential) && !old(session).active ==> r == Err::<
            (),
            GameError,
        >(GameError::NoActiveSession) && *final(session) == *old(session),
        auth_ok(profile.authority, signer, credential) && old(session).active ==> r == Ok::<
            (),
            GameError,
        >(()) && *final(session) == action_step(*old(session), SessionAction::Attack { damage }),
{
    check_auth(profile.authority, signer, credential)?;
    if !session.active {
        return Err(GameError::NoActiveSession);
    }
    session.attacks = session.attacks.saturating_add(1);
    session.score = session.score.saturating_add((damage / 2) as u64);
    Ok(())
}

/// Record one entity kill: `kills` grows by 1 and `score` by
/// `score_reward`, both saturating.
///
/// Fails with `InvalidAuth` on a bad guard and `NoActiveSession` when no
/// game is in progress; on failure the session is untouched.
/// `_entity_type` is an opaque label kept for observability only.
pub fn kill_entity(
    session: &mut GameSession,
    profile: &crate::profile::PlayerProfile,
    signer: OwnerId,
    credential: Option<SessionCredential>,
    _entity_type: String,
    score_reward: u64,
) -> (r: Result<(), GameError>)
    ensures
        !auth_ok(profile.authority, signer, credential) ==> r == Err::<(), GameError>(
            GameError::InvalidAuth,
        ) && *final(session) == *old(session),
        auth_ok(profile.authority, signer, credential) && !old(session).active ==> r == Err::<
            (),
            GameError,
        >(GameError::NoActiveSession) && *final(session) == *old(session),
        auth_ok(profile.authority, signer, credential) && old(session).active ==> r == Ok::<
            (),
            GameError,
        >(()) && *final(session) == action_step(
            *old(session),
            SessionAction::KillEntity { score_reward },
        ),
{
    check_auth(profile.authority, signer, credential)?;
    if !session.active {
        return Err(GameError::NoActiveSession);
    }
    session.kills = session.kills.saturating_add(1);
    session.score = session.score.saturating_add(score_reward);
    Ok(())
}

/// Close the running game: mark the session inactive. The counters stay
/// exactly as accumulated, frozen for settlement; only the next
/// `enter_game` clears them.
///
/// Fails with `InvalidAuth` on a bad guard and `NoActiveSession` when no
/// game is in progress; on failure the session is untouched.
pub fn end_game(
    session: &mut GameSession,
    profile: &crate::profile::PlayerProfile,
    signer: OwnerId,
    credential: Option<SessionCredential>,
) -> (r: Result<(), GameError>)
    ensures
        !auth_ok(profile.authority, signer, credential) ==> r == Err::<(), GameError>(
            GameError::InvalidAuth,
        ) && *final(session) == *old(session),
        auth_ok(profile.authority, signer, credential) && !old(session).active ==> r == Err::<
            (),
            GameError,
        >(GameError::NoActiveSession) && *final(session) == *old(session),
        auth_ok(profile.authority, signer, credential) && old(session).active ==> r == Ok::<
            (),
            GameError,
        >(()) && *final(session) == ended(*old(session)),
{
    check_auth(profile.authority, signer, credential)?;
    if !session.active {
        return Err(GameError::NoActiveSession);
    }
    session.active = false;
    Ok(())
}

} // verus!
