//! The error taxonomy of the core.
//!
//! Every failing operation reports exactly one of these kinds and leaves
//! all records exactly as they were before the call.

use vstd::prelude::*;

verus! {

/// One error kind per precondition that an operation can find violated.
#[derive(Clone, Copy, Debug, PartialEq, Eq, Structural)]
pub enum GameError {
    /// A record (or a delegation of it) already exists where a fresh one
    /// was required.
    AlreadyExists,
    /// The record the operation needs is not in the custody it expects.
    NotFound,
    /// Neither the owner key nor a valid session credential authorizes
    /// the caller.
    InvalidAuth,
    /// The realm label exceeds the length bound.
    InvalidRealm,
    /// A hot-path action was attempted while no game is in progress.
    NoActiveSession,
    /// `enter_game` was attempted while a game is already in progress.
    SessionAlreadyActive,
    /// Settlement was attempted while the game is still in progress.
    SessionStillActive,
}

} // verus!
