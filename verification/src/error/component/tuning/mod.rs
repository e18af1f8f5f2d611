//! Failures of the tuning commands.

use crate::error::command::require::UnsuppressedError;
use crate::error::lavalink::NoPlayerError;
use crate::error::NotInVoice;
use vstd::prelude::*;

verus! {

/// Requiring the bot to be heard in voice with a player failed.
#[derive(Clone, Copy, Debug, PartialEq, Eq, Structural)]
pub enum RequireInVoiceUnsuppressedAndPlayerError {
    NotInVoice(NotInVoice),
    Unsuppressed(UnsuppressedError),
    NoPlayer(NoPlayerError),
}

} // verus!
