//! How the bot answers a failed command or button: the tone, where the answer
//! goes, what it says, and whether the failure is reported as unexpected.

use crate::connection::{MessageLinkComponent, Vote};
use crate::error::command::check::{AlternateVoteResponse, AnotherPollOngoingError};
use crate::error::command::declare::{CommandExecuteError, Fuunacee};
use crate::error::command::util::AutoJoinSuppressedError;
use crate::error::command;
use crate::error::gateway::component::{self, ControllerError};
use crate::error::{AutoJoinAttemptFailed, LavalinkError, PositionOutOfRange, Suppressed};
use vstd::prelude::*;

verus! {

/// The tone of an answer, shown by the emoji it starts with.
#[derive(Clone, Copy, Debug, PartialEq, Eq, Structural)]
pub enum Tone {
    Nope,
    Wrng,
    Warn,
    Unkn,
    Erro,
    Hid,
    Note,
    Susp,
    Blck,
    Dubious,
}

/// Where an answer goes.
#[derive(Clone, Copy, Debug, PartialEq, Eq, Structural)]
pub enum Delivery {
    /// As the response to the interaction
    Respond,
    /// As a followup message
    Followup,
    /// In place of the content of the followup message with this id
    UpdateFollowup(u64),
}

/// A command whose mention an answer holds.
#[derive(Clone, Copy, Debug, PartialEq, Eq, Structural)]
pub enum CommandName {
    Join,
    Play,
}

/// A piece of the text of an answer.
#[derive(Clone, Copy, Debug)]
pub enum Segment {
    /// Text as it stands
    Text(&'static str),
    /// A whole number, in decimal
    Integer(i64),
    /// A count, in decimal
    Count(usize),
    /// The mention of the channel with this id
    Channel(u64),
    /// The link to a message
    Link(MessageLinkComponent),
    /// A vote, as it is shown to users
    Vote(Vote),
    /// The names of the permissions whose bits are set
    Permissions(u64),
    /// The mention of a command
    Command(CommandName),
    /// The names of the audio sources the bot can play from
    SupportedServices,
    /// The failure itself, printed for the bot's developers
    Report,
}

/// The answer to a failure.
#[derive(Debug)]
pub struct Answer {
    pub tone: Tone,
    pub delivery: Delivery,
    pub text: Vec<Segment>,
    /// Whether the failure is unexpected and handed on after the answer
    pub unexpected: bool,
}

/// An answer, as a value of the specification.
pub struct AnswerModel {
    pub tone: Tone,
    pub delivery: Delivery,
    pub text: Seq<Segment>,
    pub unexpected: bool,
}

/// Whether a kind of command failure is never the result of reducing a command
/// failure.
pub open spec fn never_flattened(kind: command::FlattenedError) -> bool {
    kind is Stopped || kind is PollLoss || kind is PollVoided
}

/// The answer to a command failure of the given kind.
pub open spec fn command_answer(kind: command::FlattenedError) -> AnswerModel {
    match kind {
            command::Fe::Cache => AnswerModel {
                tone: Tone::Unkn,
                delivery: Delivery::Followup,
                text: seq![
                    Segment::Text("Something isn't working at the moment, try again later."),
                ],
                unexpected: false,
            },
            command::Fe::InVoiceWithoutUser(e) => AnswerModel {
                tone: Tone::Nope,
                delivery: Delivery::Followup,
                text: seq![
                    Segment::Text("You are not with the bot in "),
                    Segment::Channel(e.0),
                    Segment::Text(".\n-# Members who are a ***DJ*** bypass this."),
                ],
                unexpected: false,
            },
            command::Fe::Suppressed(Suppressed::Muted) => AnswerModel {
                tone: Tone::Wrng,
                delivery: Delivery::Followup,
                text: seq![
                    Segment::Text("Currently server muted."),
                ],
                unexpected: false,
            },
            command::Fe::Suppressed(Suppressed::NotSpeaker) => AnswerModel {
                tone: Tone::Wrng,
                delivery: Delivery::Followup,
                text: seq![
                    Segment::Text("Not currently a speaker in this stage channel."),
                ],
                unexpected: false,
            },
            command::Fe::AutoJoinSuppressed(AutoJoinSuppressedError::Muted) => AnswerModel {
                tone: Tone::Wrng,
                delivery: Delivery::Followup,
                text: seq![
                    Segment::Text("Currently server muted."),
                ],
                unexpected: false,
            },
            command::Fe::AutoJoinSuppressed(AutoJoinSuppressedError::StillNotSpeaker { last_followup_id }) => AnswerModel {
                tone: Tone::Dubious,
                delivery: Delivery::UpdateFollowup(*last_followup_id),
                text: seq![
                    Segment::Text("Timed out waiting to become speaker. Inform stage moderators to invite to speak and reinvoke this command."),
                ],
                unexpected: false,
            },
            command::Fe::AutoJoinAttemptFailed(AutoJoinAttemptFailed::UserNotInVoice(_)) => AnswerModel {
                tone: Tone::Wrng,
                delivery: Delivery::Followup,
                text: seq![
                    Segment::Text("Please join a voice channel, or use "),
                    Segment::Command(CommandName::Join),
                    Segment::Text(" to connect to a channel."),
                ],
                unexpected: false,
            },
            command::Fe::AutoJoinAttemptFailed(AutoJoinAttemptFailed::UserNotAllowed(_)) => AnswerModel {
                tone: Tone::Nope,
                delivery: Delivery::Followup,
                text: seq![
                    Segment::Text("Attempting to join your currently connected channel failed as you are not allowed to use the bot here."),
                ],
                unexpected: false,
            },
            command::Fe::AutoJoinAttemptFailed(AutoJoinAttemptFailed::Forbidden(e)) => AnswerModel {
                tone: Tone::Blck,
                delivery: Delivery::Followup,
                text: seq![
                    Segment::Text("**Attempting to join "),
                    Segment::Channel(e.channel_id),
                    Segment::Text(" failed due to insufficient permissions**: Missing "),
                    Segment::Permissions(e.missing),
                    Segment::Text(" permissions."),
                ],
                unexpected: false,
            },
            command::Fe::AutoJoinAttemptFailed(AutoJoinAttemptFailed::UserNotStageModerator(_)) => AnswerModel {
                tone: Tone::Nope,
                delivery: Delivery::Followup,
                text: seq![
                    Segment::Text("Attempting to join your currently connected stage failed as you are not a **Stage Manager**."),
                ],
                unexpected: false,
            },
            command::Fe::Lavalink(LavalinkError::TrackError) => AnswerModel {
                tone: Tone::Hid,
                delivery: Delivery::Followup,
                text: seq![
                    Segment::Text("💔 **Unable to load track**: Please ensure the URL is from a supported audio streaming service and the content is publicly accessible.  \n-# **Supported streaming services**: "),
                    Segment::SupportedServices,
                    Segment::Text(". If you believe this should be loaded, contact the bot developers to report the issue."),
                ],
                unexpected: false,
            },
            command::Fe::Lavalink(LavalinkError::Other) => AnswerModel {
                tone: Tone::Erro,
                delivery: Delivery::Followup,
                text: seq![
                    Segment::Text("Something went wrong with lavalink: "),
                    Segment::Report,
                ],
                unexpected: true,
            },
            command::Fe::TwilightHttp | command::Fe::DeserializeBody | command::Fe::MessageValidation | command::Fe::Sqlx | command::Fe::TaskJoin | command::Fe::GatewaySend => AnswerModel {
                tone: Tone::Erro,
                delivery: Delivery::Followup,
                text: seq![
                    Segment::Text("Something went wrong: "),
                    Segment::Report,
                ],
                unexpected: true,
            },
            command::Fe::UserNotDj => AnswerModel {
                tone: Tone::Nope,
                delivery: Delivery::Respond,
                text: seq![
                    Segment::Text("You need to be a ***DJ*** to do that."),
                ],
                unexpected: false,
            },
            command::Fe::UserNotAccessManager => AnswerModel {
                tone: Tone::Nope,
                delivery: Delivery::Respond,
                text: seq![
                    Segment::Text("You need to be an ***Access Manager*** to do that."),
                ],
                unexpected: false,
            },
            command::Fe::NotInVoice => AnswerModel {
                tone: Tone::Warn,
                delivery: Delivery::Respond,
                text: seq![
                    Segment::Text("Not currently connected to a voice channel. Use "),
                    Segment::Command(CommandName::Join),
                    Segment::Text(" or "),
                    Segment::Command(CommandName::Play),
                    Segment::Text(" first."),
                ],
                unexpected: false,
            },
            command::Fe::InVoiceWithSomeoneElse(e) => AnswerModel {
                tone: Tone::Nope,
                delivery: Delivery::Respond,
                text: seq![
                    Segment::Text("Someone else is listening with the bot in "),
                    Segment::Channel(e.0),
                    Segment::Text("."),
                ],
                unexpected: false,
            },
            command::Fe::InVoiceWithoutSomeoneElse(e) => AnswerModel {
                tone: Tone::Wrng,
                delivery: Delivery::Respond,
                text: seq![
                    Segment::Text("Not enough people are in "),
                    Segment::Channel(e.0),
                    Segment::Text("."),
                ],
                unexpected: false,
            },
            command::Fe::NotPlaying => AnswerModel {
                tone: Tone::Wrng,
                delivery: Delivery::Respond,
                text: seq![
                    Segment::Text("Currently not playing anything."),
                ],
                unexpected: false,
            },
            command::Fe::Paused => AnswerModel {
                tone: Tone::Wrng,
                delivery: Delivery::Respond,
                text: seq![
                    Segment::Text("Currently paused."),
                ],
                unexpected: false,
            },
            command::Fe::QueueNotSeekable(_) => AnswerModel {
                tone: Tone::Nope,
                delivery: Delivery::Respond,
                text: seq![
                    Segment::Text("The current track cannot be sought."),
                ],
                unexpected: false,
            },
            command::Fe::QueueEmpty => AnswerModel {
                tone: Tone::Wrng,
                delivery: Delivery::Respond,
                text: seq![
                    Segment::Text("The queue is currently empty."),
                ],
                unexpected: false,
            },
            command::Fe::PositionOutOfRange(PositionOutOfRange::OutOfRange { position, queue_len }) => AnswerModel {
                tone: Tone::Wrng,
                delivery: Delivery::Respond,
                text: seq![
                    Segment::Text("Invalid track position: `"),
                    Segment::Integer(*position),
                    Segment::Text("`; Track position must be from `1` to `"),
                    Segment::Count(*queue_len),
                    Segment::Text("`."),
                ],
                unexpected: false,
            },
            command::Fe::PositionOutOfRange(PositionOutOfRange::OnlyTrack(p)) => AnswerModel {
                tone: Tone::Wrng,
                delivery: Delivery::Respond,
                text: seq![
                    Segment::Text("Invalid track position: `"),
                    Segment::Integer(*p),
                    Segment::Text("`; Track position must be `1` as the queue currently only has one track."),
                ],
                unexpected: false,
            },
            command::Fe::NotUsersTrack(_) => AnswerModel {
                tone: Tone::Nope,
                delivery: Delivery::Respond,
                text: seq![
                    Segment::Text("You can only do this to a track you requested."),
                ],
                unexpected: false,
            },
            command::Fe::AnotherPollOngoing(AnotherPollOngoingError { message, alternate_vote: Some(AlternateVoteResponse::Casted) }) => AnswerModel {
                tone: Tone::Note,
                delivery: Delivery::Respond,
                text: seq![
                    Segment::Text("The ongoing poll at "),
                    Segment::Link(*message),
                    Segment::Text(" may resolve this. Your vote has automatically been casted."),
                ],
                unexpected: false,
            },
            command::Fe::AnotherPollOngoing(AnotherPollOngoingError { message, alternate_vote: Some(AlternateVoteResponse::DjCasted) }) => AnswerModel {
                tone: Tone::Hid,
                delivery: Delivery::Respond,
                text: seq![
                    Segment::Text("Superseded the ongoing poll at "),
                    Segment::Link(*message),
                    Segment::Text(" to win."),
                ],
                unexpected: false,
            },
            command::Fe::AnotherPollOngoing(AnotherPollOngoingError { message, alternate_vote: Some(AlternateVoteResponse::CastDenied) }) => AnswerModel {
                tone: Tone::Nope,
                delivery: Delivery::Respond,
                text: seq![
                    Segment::Text("The ongoing poll at "),
                    Segment::Link(*message),
                    Segment::Text(" may resolve this, although you are not eligible to cast a vote there."),
                ],
                unexpected: false,
            },
            command::Fe::AnotherPollOngoing(AnotherPollOngoingError { message, alternate_vote: Some(AlternateVoteResponse::CastedAlready(vote)) }) => AnswerModel {
                tone: Tone::Warn,
                delivery: Delivery::Respond,
                text: seq![
                    Segment::Text("The ongoing poll at "),
                    Segment::Link(*message),
                    Segment::Text(" may resolve this, although you've already casted a vote: **"),
                    Segment::Vote(*vote),
                    Segment::Text("**."),
                ],
                unexpected: false,
            },
            command::Fe::AnotherPollOngoing(AnotherPollOngoingError { message, alternate_vote: None }) => AnswerModel {
                tone: Tone::Susp,
                delivery: Delivery::Respond,
                text: seq![
                    Segment::Text("Another poll is needed to resolve that. Please resolve the ongoing poll at "),
                    Segment::Link(*message),
                    Segment::Text(" first."),
                ],
                unexpected: false,
            },
            command::Fe::ConfirmationTimedOut => AnswerModel {
                tone: Tone::Susp,
                delivery: Delivery::Followup,
                text: seq![
                    Segment::Text("Confirmation timed out."),
                ],
                unexpected: false,
            },
            command::Fe::NoPlayer => AnswerModel {
                tone: Tone::Warn,
                delivery: Delivery::Respond,
                text: seq![
                    Segment::Text("Not yet played anything. Use "),
                    Segment::Command(CommandName::Play),
                    Segment::Text(" first."),
                ],
                unexpected: false,
            },
            command::Fe::UnrecognisedConnection => AnswerModel {
                tone: Tone::Unkn,
                delivery: Delivery::Respond,
                text: seq![
                    Segment::Text("The bot wasn't disconnected properly last session. Please wait for it to automatically leave the voice channel, then try again."),
                ],
                unexpected: false,
            },
            _ => AnswerModel {
                tone: Tone::Erro,
                delivery: Delivery::Respond,
                text: seq![
                    Segment::Text("Something went wrong: "),
                    Segment::Report,
                ],
                unexpected: true,
            },
    }
}

/// The answer to a button failure of the given kind.
pub open spec fn controller_answer(kind: component::FlattenedControllerError) -> AnswerModel {
    match kind {
            component::Fe::Cache => AnswerModel {
                tone: Tone::Unkn,
                delivery: Delivery::Followup,
                text: seq![
                    Segment::Text("Something isn't working at the moment, try again later."),
                ],
                unexpected: false,
            },
            component::Fe::InVoiceWithoutUser(e) => AnswerModel {
                tone: Tone::Nope,
                delivery: Delivery::Followup,
                text: seq![
                    Segment::Text("You are not with the bot in "),
                    Segment::Channel(e.0),
                    Segment::Text(".\n-# Members who are a ***DJ*** bypass this."),
                ],
                unexpected: false,
            },
            component::Fe::Suppressed(Suppressed::Muted) => AnswerModel {
                tone: Tone::Wrng,
                delivery: Delivery::Followup,
                text: seq![
                    Segment::Text("Currently server muted."),
                ],
                unexpected: false,
            },
            component::Fe::Suppressed(Suppressed::NotSpeaker) => AnswerModel {
                tone: Tone::Wrng,
                delivery: Delivery::Followup,
                text: seq![
                    Segment::Text("Not currently a speaker in this stage channel."),
                ],
                unexpected: false,
            },
            component::Fe::Lavalink(LavalinkError::TrackError) => AnswerModel {
                tone: Tone::Hid,
                delivery: Delivery::Followup,
                text: seq![
                    Segment::Text("💔 **Unable to load track**: Please ensure the URL is from a supported audio streaming service and the content is publicly accessible.  \n-# **Supported streaming services**: "),
                    Segment::SupportedServices,
                    Segment::Text(". If you believe this should be loaded, contact the bot developers to report the issue."),
                ],
                unexpected: false,
            },
            component::Fe::Lavalink(LavalinkError::Other) => AnswerModel {
                tone: Tone::Erro,
                delivery: Delivery::Followup,
                text: seq![
                    Segment::Text("Something went wrong with lavalink: "),
                    Segment::Report,
                ],
                unexpected: true,
            },
            component::Fe::NotInVoice => AnswerModel {
                tone: Tone::Warn,
                delivery: Delivery::Respond,
                text: seq![
                    Segment::Text("Not currently connected to a voice channel. Use "),
                    Segment::Command(CommandName::Join),
                    Segment::Text(" or "),
                    Segment::Command(CommandName::Play),
                    Segment::Text(" first."),
                ],
                unexpected: false,
            },
            component::Fe::InVoiceWithSomeoneElse(e) => AnswerModel {
                tone: Tone::Nope,
                delivery: Delivery::Respond,
                text: seq![
                    Segment::Text("Someone else is listening with the bot in "),
                    Segment::Channel(e.0),
                    Segment::Text("."),
                ],
                unexpected: false,
            },
            component::Fe::NotPlaying => AnswerModel {
                tone: Tone::Wrng,
                delivery: Delivery::Respond,
                text: seq![
                    Segment::Text("Currently not playing anything."),
                ],
                unexpected: false,
            },
            component::Fe::UnrecognisedConnection => AnswerModel {
                tone: Tone::Unkn,
                delivery: Delivery::Respond,
                text: seq![
                    Segment::Text("The bot wasn't disconnected properly last session. Please wait for it to automatically leave the voice channel, then try again."),
                ],
                unexpected: false,
            },
            component::Fe::NotUsersTrack(_) => AnswerModel {
                tone: Tone::Nope,
                delivery: Delivery::Respond,
                text: seq![
                    Segment::Text("You can only do this to a track you requested."),
                ],
                unexpected: false,
            },
            _ => AnswerModel {
                tone: Tone::Erro,
                delivery: Delivery::Respond,
                text: seq![
                    Segment::Text("Something went wrong: "),
                    Segment::Report,
                ],
                unexpected: true,
            },
    }
}

/// Answers a command failure of the given kind.
pub fn answer_command_kind(kind: command::FlattenedError) -> (r: Answer)
    requires
        !never_flattened(kind),
    ensures
        r.tone == command_answer(kind).tone,
        r.delivery == command_answer(kind).delivery,
        r.text@ == command_answer(kind).text,
        r.unexpected == command_answer(kind).unexpected,
{
    match kind {
            command::Fe::Cache => Answer {
                tone: Tone::Unkn,
                delivery: Delivery::Followup,
                text: vec![
                    Segment::Text("Something isn't working at the moment, try again later."),
                ],
                unexpected: false,
            },
            command::Fe::InVoiceWithoutUser(e) => Answer {
                tone: Tone::Nope,
                delivery: Delivery::Followup,
                text: vec![
                    Segment::Text("You are not with the bot in "),
                    Segment::Channel(e.0),
                    Segment::Text(".\n-# Members who are a ***DJ*** bypass this."),
                ],
                unexpected: false,
            },
            command::Fe::Suppressed(Suppressed::Muted) => Answer {
                tone: Tone::Wrng,
                delivery: Delivery::Followup,
                text: vec![
                    Segment::Text("Currently server muted."),
                ],
                unexpected: false,
            },
            command::Fe::Suppressed(Suppressed::NotSpeaker) => Answer {
                tone: Tone::Wrng,
                delivery: Delivery::Followup,
                text: vec![
                    Segment::Text("Not currently a speaker in this stage channel."),
                ],
                unexpected: false,
            },
            command::Fe::AutoJoinSuppressed(AutoJoinSuppressedError::Muted) => Answer {
                tone: Tone::Wrng,
                delivery: Delivery::Followup,
                text: vec![
                    Segment::Text("Currently server muted."),
                ],
                unexpected: false,
            },
            command::Fe::AutoJoinSuppressed(AutoJoinSuppressedError::StillNotSpeaker { last_followup_id }) => Answer {
                tone: Tone::Dubious,
                delivery: Delivery::UpdateFollowup(*last_followup_id),
                text: vec![
                    Segment::Text("Timed out waiting to become speaker. Inform stage moderators to invite to speak and reinvoke this command."),
                ],
                unexpected: false,
            },
            command::Fe::AutoJoinAttemptFailed(AutoJoinAttemptFailed::UserNotInVoice(_)) => Answer {
                tone: Tone::Wrng,
                delivery: Delivery::Followup,
                text: vec![
                    Segment::Text("Please join a voice channel, or use "),
                    Segment::Command(CommandName::Join),
                    Segment::Text(" to connect to a channel."),
                ],
                unexpected: false,
            },
            command::Fe::AutoJoinAttemptFailed(AutoJoinAttemptFailed::UserNotAllowed(_)) => Answer {
                tone: Tone::Nope,
                delivery: Delivery::Followup,
                text: vec![
                    Segment::Text("Attempting to join your currently connected channel failed as you are not allowed to use the bot here."),
                ],
                unexpected: false,
            },
            command::Fe::AutoJoinAttemptFailed(AutoJoinAttemptFailed::Forbidden(e)) => Answer {
                tone: Tone::Blck,
                delivery: Delivery::Followup,
                text: vec![
                    Segment::Text("**Attempting to join "),
                    Segment::Channel(e.channel_id),
                    Segment::Text(" failed due to insufficient permissions**: Missing "),
                    Segment::Permissions(e.missing),
                    Segment::Text(" permissions."),
                ],
                unexpected: false,
            },
            command::Fe::AutoJoinAttemptFailed(AutoJoinAttemptFailed::UserNotStageModerator(_)) => Answer {
                tone: Tone::Nope,
                delivery: Delivery::Followup,
                text: vec![
                    Segment::Text("Attempting to join your currently connected stage failed as you are not a **Stage Manager**."),
                ],
                unexpected: false,
            },
            command::Fe::Lavalink(LavalinkError::TrackError) => Answer {
                tone: Tone::Hid,
                delivery: Delivery::Followup,
                text: vec![
                    Segment::Text("💔 **Unable to load track**: Please ensure the URL is from a supported audio streaming service and the content is publicly accessible.  \n-# **Supported streaming services**: "),
                    Segment::SupportedServices,
                    Segment::Text(". If you believe this should be loaded, contact the bot developers to report the issue."),
                ],
                unexpected: false,
            },
            command::Fe::Lavalink(LavalinkError::Other) => Answer {
                tone: Tone::Erro,
                delivery: Delivery::Followup,
                text: vec![
                    Segment::Text("Something went wrong with lavalink: "),
                    Segment::Report,
                ],
                unexpected: true,
            },
            command::Fe::TwilightHttp | command::Fe::DeserializeBody | command::Fe::MessageValidation | command::Fe::Sqlx | command::Fe::TaskJoin | command::Fe::GatewaySend => Answer {
                tone: Tone::Erro,
                delivery: Delivery::Followup,
                text: vec![
                    Segment::Text("Something went wrong: "),
                    Segment::Report,
                ],
                unexpected: true,
            },
            command::Fe::UserNotDj => Answer {
                tone: Tone::Nope,
                delivery: Delivery::Respond,
                text: vec![
                    Segment::Text("You need to be a ***DJ*** to do that."),
                ],
                unexpected: false,
            },
            command::Fe::UserNotAccessManager => Answer {
                tone: Tone::Nope,
                delivery: Delivery::Respond,
                text: vec![
                    Segment::Text("You need to be an ***Access Manager*** to do that."),
                ],
                unexpected: false,
            },
            command::Fe::NotInVoice => Answer {
                tone: Tone::Warn,
                delivery: Delivery::Respond,
                text: vec![
                    Segment::Text("Not currently connected to a voice channel. Use "),
                    Segment::Command(CommandName::Join),
                    Segment::Text(" or "),
                    Segment::Command(CommandName::Play),
                    Segment::Text(" first."),
                ],
                unexpected: false,
            },
            command::Fe::InVoiceWithSomeoneElse(e) => Answer {
                tone: Tone::Nope,
                delivery: Delivery::Respond,
                text: vec![
                    Segment::Text("Someone else is listening with the bot in "),
                    Segment::Channel(e.0),
                    Segment::Text("."),
                ],
                unexpected: false,
            },
            command::Fe::InVoiceWithoutSomeoneElse(e) => Answer {
                tone: Tone::Wrng,
                delivery: Delivery::Respond,
                text: vec![
                    Segment::Text("Not enough people are in "),
                    Segment::Channel(e.0),
                    Segment::Text("."),
                ],
                unexpected: false,
            },
            command::Fe::NotPlaying => Answer {
                tone: Tone::Wrng,
                delivery: Delivery::Respond,
                text: vec![
                    Segment::Text("Currently not playing anything."),
                ],
                unexpected: false,
            },
            command::Fe::Paused => Answer {
                tone: Tone::Wrng,
                delivery: Delivery::Respond,
                text: vec![
                    Segment::Text("Currently paused."),
                ],
                unexpected: false,
            },
            command::Fe::QueueNotSeekable(_) => Answer {
                tone: Tone::Nope,
                delivery: Delivery::Respond,
                text: vec![
                    Segment::Text("The current track cannot be sought."),
                ],
                unexpected: false,
            },
            command::Fe::QueueEmpty => Answer {
                tone: Tone::Wrng,
                delivery: Delivery::Respond,
                text: vec![
                    Segment::Text("The queue is currently empty."),
                ],
                unexpected: false,
            },
            command::Fe::PositionOutOfRange(PositionOutOfRange::OutOfRange { position, queue_len }) => Answer {
                tone: Tone::Wrng,
                delivery: Delivery::Respond,
                text: vec![
                    Segment::Text("Invalid track position: `"),
                    Segment::Integer(*position),
                    Segment::Text("`; Track position must be from `1` to `"),
                    Segment::Count(*queue_len),
                    Segment::Text("`."),
                ],
                unexpected: false,
            },
            command::Fe::PositionOutOfRange(PositionOutOfRange::OnlyTrack(p)) => Answer {
                tone: Tone::Wrng,
                delivery: Delivery::Respond,
                text: vec![
                    Segment::Text("Invalid track position: `"),
                    Segment::Integer(*p),
                    Segment::Text("`; Track position must be `1` as the queue currently only has one track."),
                ],
                unexpected: false,
            },
            command::Fe::NotUsersTrack(_) => Answer {
                tone: Tone::Nope,
                delivery: Delivery::Respond,
                text: vec![
                    Segment::Text("You can only do this to a track you requested."),
                ],
                unexpected: false,
            },
            command::Fe::AnotherPollOngoing(AnotherPollOngoingError { message, alternate_vote: Some(AlternateVoteResponse::Casted) }) => Answer {
                tone: Tone::Note,
                delivery: Delivery::Respond,
                text: vec![
                    Segment::Text("The ongoing poll at "),
                    Segment::Link(*message),
                    Segment::Text(" may resolve this. Your vote has automatically been casted."),
                ],
                unexpected: false,
            },
            command::Fe::AnotherPollOngoing(AnotherPollOngoingError { message, alternate_vote: Some(AlternateVoteResponse::DjCasted) }) => Answer {
                tone: Tone::Hid,
                delivery: Delivery::Respond,
                text: vec![
                    Segment::Text("Superseded the ongoing poll at "),
                    Segment::Link(*message),
                    Segment::Text(" to win."),
                ],
                unexpected: false,
            },
            command::Fe::AnotherPollOngoing(AnotherPollOngoingError { message, alternate_vote: Some(AlternateVoteResponse::CastDenied) }) => Answer {
                tone: Tone::Nope,
                delivery: Delivery::Respond,
                text: vec![
                    Segment::Text("The ongoing poll at "),
                    Segment::Link(*message),
                    Segment::Text(" may resolve this, although you are not eligible to cast a vote there."),
                ],
                unexpected: false,
            },
            command::Fe::AnotherPollOngoing(AnotherPollOngoingError { message, alternate_vote: Some(AlternateVoteResponse::CastedAlready(vote)) }) => Answer {
                tone: Tone::Warn,
                delivery: Delivery::Respond,
                text: vec![
                    Segment::Text("The ongoing poll at "),
                    Segment::Link(*message),
                    Segment::Text(" may resolve this, although you've already casted a vote: **"),
                    Segment::Vote(*vote),
                    Segment::Text("**."),
                ],
                unexpected: false,
            },
            command::Fe::AnotherPollOngoing(AnotherPollOngoingError { message, alternate_vote: None }) => Answer {
                tone: Tone::Susp,
                delivery: Delivery::Respond,
                text: vec![
                    Segment::Text("Another poll is needed to resolve that. Please resolve the ongoing poll at "),
                    Segment::Link(*message),
                    Segment::Text(" first."),
                ],
                unexpected: false,
            },
            command::Fe::ConfirmationTimedOut => Answer {
                tone: Tone::Susp,
                delivery: Delivery::Followup,
                text: vec![
                    Segment::Text("Confirmation timed out."),
                ],
                unexpected: false,
            },
            command::Fe::NoPlayer => Answer {
                tone: Tone::Warn,
                delivery: Delivery::Respond,
                text: vec![
                    Segment::Text("Not yet played anything. Use "),
                    Segment::Command(CommandName::Play),
                    Segment::Text(" first."),
                ],
                unexpected: false,
            },
            command::Fe::UnrecognisedConnection => Answer {
                tone: Tone::Unkn,
                delivery: Delivery::Respond,
                text: vec![
                    Segment::Text("The bot wasn't disconnected properly last session. Please wait for it to automatically leave the voice channel, then try again."),
                ],
                unexpected: false,
            },
            _ => Answer {
                tone: Tone::Erro,
                delivery: Delivery::Respond,
                text: vec![
                    Segment::Text("Something went wrong: "),
                    Segment::Report,
                ],
                unexpected: true,
            },
    }
}

/// Answers a button failure of the given kind.
pub fn answer_controller_kind(kind: component::FlattenedControllerError) -> (r: Answer)
    ensures
        r.tone == controller_answer(kind).tone,
        r.delivery == controller_answer(kind).delivery,
        r.text@ == controller_answer(kind).text,
        r.unexpected == controller_answer(kind).unexpected,
{
    match kind {
            component::Fe::Cache => Answer {
                tone: Tone::Unkn,
                delivery: Delivery::Followup,
                text: vec![
                    Segment::Text("Something isn't working at the moment, try again later."),
                ],
                unexpected: false,
            },
            component::Fe::InVoiceWithoutUser(e) => Answer {
                tone: Tone::Nope,
                delivery: Delivery::Followup,
                text: vec![
                    Segment::Text("You are not with the bot in "),
                    Segment::Channel(e.0),
                    Segment::Text(".\n-# Members who are a ***DJ*** bypass this."),
                ],
                unexpected: false,
            },
            component::Fe::Suppressed(Suppressed::Muted) => Answer {
                tone: Tone::Wrng,
                delivery: Delivery::Followup,
                text: vec![
                    Segment::Text("Currently server muted."),
                ],
                unexpected: false,
            },
            component::Fe::Suppressed(Suppressed::NotSpeaker) => Answer {
                tone: Tone::Wrng,
                delivery: Delivery::Followup,
                text: vec![
                    Segment::Text("Not currently a speaker in this stage channel."),
                ],
                unexpected: false,
            },
            component::Fe::Lavalink(LavalinkError::TrackError) => Answer {
                tone: Tone::Hid,
                delivery: Delivery::Followup,
                text: vec![
                    Segment::Text("💔 **Unable to load track**: Please ensure the URL is from a supported audio streaming service and the content is publicly accessible.  \n-# **Supported streaming services**: "),
                    Segment::SupportedServices,
                    Segment::Text(". If you believe this should be loaded, contact the bot developers to report the issue."),
                ],
                unexpected: false,
            },
            component::Fe::Lavalink(LavalinkError::Other) => Answer {
                tone: Tone::Erro,
                delivery: Delivery::Followup,
                text: vec![
                    Segment::Text("Something went wrong with lavalink: "),
                    Segment::Report,
                ],
                unexpected: true,
            },
            component::Fe::NotInVoice => Answer {
                tone: Tone::Warn,
                delivery: Delivery::Respond,
                text: vec![
                    Segment::Text("Not currently connected to a voice channel. Use "),
                    Segment::Command(CommandName::Join),
                    Segment::Text(" or "),
                    Segment::Command(CommandName::Play),
                    Segment::Text(" first."),
                ],
                unexpected: false,
            },
            component::Fe::InVoiceWithSomeoneElse(e) => Answer {
                tone: Tone::Nope,
                delivery: Delivery::Respond,
                text: vec![
                    Segment::Text("Someone else is listening with the bot in "),
                    Segment::Channel(e.0),
                    Segment::Text("."),
                ],
                unexpected: false,
            },
            component::Fe::NotPlaying => Answer {
                tone: Tone::Wrng,
                delivery: Delivery::Respond,
                text: vec![
                    Segment::Text("Currently not playing anything."),
                ],
                unexpected: false,
            },
            component::Fe::UnrecognisedConnection => Answer {
                tone: Tone::Unkn,
                delivery: Delivery::Respond,
                text: vec![
                    Segment::Text("The bot wasn't disconnected properly last session. Please wait for it to automatically leave the voice channel, then try again."),
                ],
                unexpected: false,
            },
            component::Fe::NotUsersTrack(_) => Answer {
                tone: Tone::Nope,
                delivery: Delivery::Respond,
                text: vec![
                    Segment::Text("You can only do this to a track you requested."),
                ],
                unexpected: false,
            },
            _ => Answer {
                tone: Tone::Erro,
                delivery: Delivery::Respond,
                text: vec![
                    Segment::Text("Something went wrong: "),
                    Segment::Report,
                ],
                unexpected: true,
            },
    }
}

/// Whether `answer` is the answer that `model` describes.
pub open spec fn is_answer(answer: Answer, model: AnswerModel) -> bool {
    &&& answer.tone == model.tone
    &&& answer.delivery == model.delivery
    &&& answer.text@ =~= model.text
    &&& answer.unexpected == model.unexpected
}

/// Reducing a command failure never gives a kind that has no answer.
pub proof fn lemma_flattened_has_answer(error: &command::Error)
    ensures
        !never_flattened(error.flattened()),
{
}

/// Answers a command failure.
pub fn answer_command_error(error: &command::Error) -> (r: Answer)
    ensures
        is_answer(r, command_answer(error.flattened())),
{
    proof {
        lemma_flattened_has_answer(error);
    }
    answer_command_kind(error.flatten_as())
}

/// Answers a button failure.
pub fn answer_controller_error(error: &ControllerError) -> (r: Answer)
    ensures
        is_answer(r, controller_answer(error.flattened())),
{
    answer_controller_kind(error.flatten_as())
}

/// The answer to a failure to run a command: a user who may not use the bot
/// here is told so, a failure of the command itself is answered by its kind,
/// and any other failure is reported as unexpected.
pub open spec fn execute_answer(error: CommandExecuteError) -> AnswerModel {
    match error.flattened_until_user_not_allowed() {
        Fuunacee::UserNotAllowed => AnswerModel {
            tone: Tone::Nope,
            delivery: Delivery::Respond,
            text: seq![Segment::Text("You are not allowed to use commands in this context.")],
            unexpected: false,
        },
        Fuunacee::Command => match error {
            CommandExecuteError::Command(e) => command_answer(e.flattened()),
            _ => arbitrary(),
        },
        _ => AnswerModel {
            tone: Tone::Unkn,
            delivery: Delivery::Respond,
            text: seq![
                Segment::Text("Something unexpectedly went wrong: "),
                Segment::Report,
                Segment::Text("
                    Please report this to the bot developers."),
            ],
            unexpected: true,
        },
    }
}

/// Answers a failure to run a command.
pub fn answer_command_execute_error(error: &CommandExecuteError) -> (r: Answer)
    ensures
        is_answer(r, execute_answer(*error)),
{
    match error.flatten_until_user_not_allowed_as() {
        Fuunacee::UserNotAllowed => Answer {
            tone: Tone::Nope,
            delivery: Delivery::Respond,
            text: vec![Segment::Text("You are not allowed to use commands in this context.")],
            unexpected: false,
        },
        Fuunacee::Command => match error {
            CommandExecuteError::Command(e) => answer_command_error(e),
            _ => unreached(),
        },
        _ => Answer {
            tone: Tone::Unkn,
            delivery: Delivery::Respond,
            text: vec![
                Segment::Text("Something unexpectedly went wrong: "),
                Segment::Report,
                Segment::Text("
                    Please report this to the bot developers."),
            ],
            unexpected: true,
        },
    }
}

/// A button failure is answered as the same failure of the command would be,
/// but for failed requests to the chat platform, which a button answers in
/// the response and a command in a followup.
pub proof fn lemma_controller_answer_agrees_with_command(error: ControllerError)
    requires
        !(error.flattened() is TwilightHttp || error.flattened() is DeserializeBody),
    ensures
        controller_answer(error.flattened()) == command_answer(
            error.as_command_error().flattened(),
        ),
{
    component::lemma_controller_kind_agrees_with_command(error);
}

/// Whether a press of a button is for the current now-playing message of the
/// guild: only then is the button carried out.
pub open spec fn is_current_now_playing(now_playing_message_id: Option<u64>, message_id: u64) -> bool {
    now_playing_message_id == Some(message_id)
}

/// Decides whether a press of a button on the message `message_id` is carried
/// out, given the id of the guild's now-playing message.
pub fn controller_applies(now_playing_message_id: Option<u64>, message_id: u64) -> (r: bool)
    ensures
        r == is_current_now_playing(now_playing_message_id, message_id),
{
    match now_playing_message_id {
        Some(id) => id == message_id,
        None => false,
    }
}

} // verus!
