//! Errors of the bot: what stops a command, and how each failure is sorted
//! for the answer given to the user.

pub mod command;
pub mod component;
pub mod gateway;
pub mod lavalink;
pub mod respond;
pub mod runner;

use vstd::prelude::*;

verus! {

// Failures reported by the services the bot talks to.  The bot only tells
// them apart, so each is a tag.

/// A request to the chat platform's HTTP API failed.
#[derive(Clone, Copy, Debug, PartialEq, Eq, Structural)]
pub struct TwilightHttpError;

/// The body of an HTTP response could not be read.
#[derive(Clone, Copy, Debug, PartialEq, Eq, Structural)]
pub struct DeserializeBodyError;

/// A database query failed.
#[derive(Clone, Copy, Debug, PartialEq, Eq, Structural)]
pub struct SqlxError;

/// A spawned task could not be joined.
#[derive(Clone, Copy, Debug, PartialEq, Eq, Structural)]
pub struct TaskJoinError;

/// A message embed broke the platform's limits.
#[derive(Clone, Copy, Debug, PartialEq, Eq, Structural)]
pub struct EmbedValidationError;

/// A message broke the platform's limits.
#[derive(Clone, Copy, Debug, PartialEq, Eq, Structural)]
pub struct MessageValidationError;

/// A command could not be sent through the gateway.
#[derive(Clone, Copy, Debug, PartialEq, Eq, Structural)]
pub struct GatewaySendError;

/// An image url was refused for an embed.
#[derive(Clone, Copy, Debug, PartialEq, Eq, Structural)]
pub struct ImageSourceUrlError;

/// A timestamp could not be parsed.
#[derive(Clone, Copy, Debug, PartialEq, Eq, Structural)]
pub struct TimestampParseError;

/// A wait for an interaction was canceled.
#[derive(Clone, Copy, Debug, PartialEq, Eq, Structural)]
pub struct StandbyCanceled;

/// An event could not be sent to the subscribers of a connection.
#[derive(Clone, Copy, Debug, PartialEq, Eq, Structural)]
pub struct EventSendError;

/// An event of a connection could not be received.
#[derive(Clone, Copy, Debug, PartialEq, Eq, Structural)]
pub struct EventRecvError;

/// The options of an interaction could not be parsed.
#[derive(Clone, Copy, Debug, PartialEq, Eq, Structural)]
pub struct InteractionParseError;

/// An HTTP download failed.
#[derive(Clone, Copy, Debug, PartialEq, Eq, Structural)]
pub struct ReqwestError;

/// An image could not be decoded.
#[derive(Clone, Copy, Debug, PartialEq, Eq, Structural)]
pub struct ImageError;

/// A value could not be published to its watchers.
#[derive(Clone, Copy, Debug, PartialEq, Eq, Structural)]
pub struct WatchSendError;

/// A failure of the audio server or of its client.
#[derive(Clone, Copy, Debug, PartialEq, Eq, Structural)]
pub enum LavalinkError {
    /// Loading a track failed on the audio server
    TrackError,
    /// Any other failure of the audio server client
    Other,
}

// Conditions of the bot itself that stop a command.

/// The in-memory cache did not hold what was needed.
#[derive(Clone, Copy, Debug, PartialEq, Eq, Structural)]
pub struct Cache;

/// The bot is not connected to a voice channel.
#[derive(Clone, Copy, Debug, PartialEq, Eq, Structural)]
pub struct NotInVoice;

/// The bot is in the voice channel with this id, and the user is not.
#[derive(Clone, Copy, Debug, PartialEq, Eq, Structural)]
pub struct InVoiceWithoutUser(pub u64);

/// The bot cannot be heard in its voice channel.
#[derive(Clone, Copy, Debug, PartialEq, Eq, Structural)]
pub enum Suppressed {
    /// The bot is server muted
    Muted,
    /// The bot is not a speaker in the stage channel
    NotSpeaker,
}

/// The track does not belong to the user.
#[derive(Clone, Copy, Debug, PartialEq, Eq, Structural)]
pub struct NotUsersTrack;

/// No one but the user is in the voice channel with this id.
#[derive(Clone, Copy, Debug, PartialEq, Eq, Structural)]
pub struct InVoiceWithoutSomeoneElse(pub u64);

/// Someone else is in the voice channel with this id.
#[derive(Clone, Copy, Debug, PartialEq, Eq, Structural)]
pub struct InVoiceWithSomeoneElse(pub u64);

/// The current track cannot be sought.
#[derive(Clone, Copy, Debug, PartialEq, Eq, Structural)]
pub struct QueueNotSeekable;

/// A track position given by the user lies outside the queue.
#[derive(Clone, Copy, Debug, PartialEq, Eq, Structural)]
pub enum PositionOutOfRange {
    /// The position is not between one and the length of the queue
    OutOfRange { position: i64, queue_len: usize },
    /// The queue holds a single track and the position is not one
    OnlyTrack(i64),
}

/// The user may not manage access.
#[derive(Clone, Copy, Debug, PartialEq, Eq, Structural)]
pub struct UserNotAccessManager;

/// The queue is empty.
#[derive(Clone, Copy, Debug, PartialEq, Eq, Structural)]
pub struct QueueEmpty;

/// The user is not a DJ.
#[derive(Clone, Copy, Debug, PartialEq, Eq, Structural)]
pub struct UserNotDj;

/// The interaction did not come from a guild.
#[derive(Clone, Copy, Debug, PartialEq, Eq, Structural)]
pub struct NotInGuild;

/// Nothing is playing.
#[derive(Clone, Copy, Debug, PartialEq, Eq, Structural)]
pub struct NotPlaying;

/// The player is paused.
#[derive(Clone, Copy, Debug, PartialEq, Eq, Structural)]
pub struct Paused;

/// The voice connection of the guild is not known.
#[derive(Clone, Copy, Debug, PartialEq, Eq, Structural)]
pub struct UnrecognisedConnection;

/// The user may not use the bot here.
#[derive(Clone, Copy, Debug, PartialEq, Eq, Structural)]
pub struct UserNotAllowed;

/// The user is not in a voice channel.
#[derive(Clone, Copy, Debug, PartialEq, Eq, Structural)]
pub struct UserNotInVoice;

/// The user is not a stage moderator.
#[derive(Clone, Copy, Debug, PartialEq, Eq, Structural)]
pub struct UserNotStageModerator;

/// The user did not confirm in time.
#[derive(Clone, Copy, Debug, PartialEq, Eq, Structural)]
pub struct ConfirmationTimedOut;

/// Loading tracks failed.
#[derive(Clone, Copy, Debug, PartialEq, Eq, Structural)]
pub struct LoadFailed;

/// A response could not be built.
#[derive(Clone, Copy, Debug, PartialEq, Eq, Structural)]
pub struct BuildError;

/// The bot is already in the voice channel with this id.
#[derive(Clone, Copy, Debug, PartialEq, Eq, Structural)]
pub struct InVoiceAlready(pub u64);

/// The bot lacks permissions to connect to a voice channel.
#[derive(Clone, Copy, Debug, PartialEq, Eq, Structural)]
pub struct ConnectionForbidden {
    pub channel_id: u64,
    /// The bits of the missing permissions
    pub missing: u64,
}

/// Joining the user's voice channel on their behalf failed for a reason the user can act on.
#[derive(Clone, Copy, Debug, PartialEq, Eq, Structural)]
pub enum AutoJoinAttemptFailed {
    UserNotInVoice(UserNotInVoice),
    UserNotAllowed(UserNotAllowed),
    Forbidden(ConnectionForbidden),
    UserNotStageModerator(UserNotStageModerator),
}

} // verus!
