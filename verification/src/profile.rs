//! The durable player profile and the settlement arithmetic.
//!
//! A profile is created once per identity and from then on is mutated by
//! settlement alone, which folds one finished session's counters into the
//! lifetime totals with saturating addition.

use vstd::prelude::*;

use crate::auth::OwnerId;
use crate::session::GameSession;

verus! {

/// The durable, monotonically accumulating record of one player.
#[derive(Clone, Copy, Debug, PartialEq, Eq, Structural)]
pub struct PlayerProfile {
    /// The identity that owns this profile; never changes once created.
    pub authority: OwnerId,
    /// Lifetime blocks placed, over all settled sessions.
    pub total_blocks_placed: u64,
    /// Lifetime attacks, over all settled sessions.
    pub total_attacks: u64,
    /// Lifetime entity kills, over all settled sessions.
    pub total_kills: u64,
    /// Lifetime score, over all settled sessions.
    pub total_score: u64,
    /// How many sessions have been settled into this profile.
    pub games_played: u16,
}

/// The profile `initialize_profile` hands out: every counter zero.
pub open spec fn fresh_profile(owner: OwnerId) -> PlayerProfile {
    PlayerProfile {
        authority: owner,
        total_blocks_placed: 0,
        total_attacks: 0,
        total_kills: 0,
        total_score: 0,
        games_played: 0,
    }
}

/// The profile after folding one session snapshot into `p`: each session
/// counter, widened to 64 bits, is added to the matching total with
/// saturating addition, and `games_played` grows by one, saturating at
/// its own 16-bit width.
pub open spec fn settled(p: PlayerProfile, s: GameSession) -> PlayerProfile {
    PlayerProfile {
        authority: p.authority,
        total_blocks_placed: p.total_blocks_placed.saturating_add(s.blocks_placed as u64),
        total_attacks: p.total_attacks.saturating_add(s.attacks as u64),
        total_kills: p.total_kills.saturating_add(s.kills as u64),
        total_score: p.total_score.saturating_add(s.score),
        games_played: p.games_played.saturating_add(1),
    }
}

/// Create the durable profile for `owner` with all counters at zero.
///
/// Whether a profile is already allocated for `owner` is the storage
/// venue's knowledge: the caller must refuse to create a second one.
pub fn initialize_profile(owner: OwnerId) -> (p: PlayerProfile)
    ensures
        p == fresh_profile(owner),
{
    PlayerProfile {
        authority: owner,
        total_blocks_placed: 0,
        total_attacks: 0,
        total_kills: 0,
        total_score: 0,
        games_played: 0,
    }
}

/// Fold the four counters of `session` into `profile`.
///
/// This is the only entry point that mutates profile totals; saturating
/// addition makes every total monotonically non-decreasing and free of
/// overflow at any input.
pub fn settle(profile: &mut PlayerProfile, session: &GameSession)
    ensures
        *final(profile) == settled(*old(profile), *session),
{
    profile.total_blocks_placed = profile.total_blocks_placed.saturating_add(
        session.blocks_placed as u64,
    );
    profile.total_attacks = profile.total_attacks.saturating_add(session.attacks as u64);
    profile.total_kills = profile.total_kills.saturating_add(session.kills as u64);
    profile.total_score = profile.total_score.saturating_add(session.score);
    profile.games_played = profile.games_played.saturating_add(1);
}

} // verus!
