//! Two-tier progress tracking for a block-and-combat game: a durable
//! `PlayerProfile` that accumulates lifetime statistics, and an ephemeral
//! `GameSession` that is mutated cheaply during play and folded back into
//! the profile exactly once at settlement.
//!
//! The library is the venue-independent core: the authorization guard, the
//! session state machine, and the delegation/settlement protocol, all over
//! plain values. Storage allocation, signature checking and the transport
//! to the execution venues are the caller's concern.

pub mod auth;
pub mod errors;
pub mod laws;
pub mod profile;
pub mod session;
pub mod settlement;

use vstd::prelude::*;

verus! {

/// Realm labels longer than this many bytes are rejected by `enter_game`.
pub const MAX_REALM_LEN: usize = 16;

} // verus!
