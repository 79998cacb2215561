//! The ways in which handling a game interaction can fail.

use vstd::prelude::*;

verus! {

/// Why an interaction with a game could not be handled.
#[derive(Debug, Clone, Copy, PartialEq, Eq, Structural)]
pub enum GameError {
    /// A coordinate or control token is malformed.
    ParseError,
    /// Metadata that the game needs is absent (no recorded challenger, no
    /// opponent, no first line in the message).
    MissingContext,
    /// Several users could be the opponent and the acting user cannot be
    /// told apart from them.
    AmbiguousOpponent,
}

} // verus!
