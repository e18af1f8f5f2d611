//! Failures of the checks a command makes of the user, the queue and polls.

use crate::connection::{MessageLinkComponent, Vote, VoidingEvent};
use crate::error::command::poll::StartPollError;
use crate::error::respond::DeserialiseBodyFromHttpError;
use crate::error::{
    Cache, EventRecvError, EventSendError, InVoiceWithSomeoneElse, NotUsersTrack, QueueNotSeekable,
    SqlxError, TaskJoinError, UserNotAllowed,
};
use vstd::prelude::*;

verus! {

/// Reading the access rules of a guild failed.
#[derive(Clone, Copy, Debug, PartialEq, Eq, Structural)]
pub enum AccessCalculatorBuildError {
    Sqlx(SqlxError),
    TaskJoin(TaskJoinError),
}

/// Checking that the user may use the bot here failed.
#[derive(Clone, Copy, Debug, PartialEq, Eq, Structural)]
pub enum UserAllowedError {
    AccessCalculatorBuild(AccessCalculatorBuildError),
    UserNotAllowed(UserNotAllowed),
}

/// Checking that the user is alone with the bot failed.
#[derive(Clone, Copy, Debug, PartialEq, Eq, Structural)]
pub enum UserOnlyInError {
    Cache(Cache),
    InVoiceWithSomeoneElse(InVoiceWithSomeoneElse),
}

/// Checking that the current track may be sought failed.
#[derive(Clone, Copy, Debug, PartialEq, Eq, Structural)]
pub enum QueueSeekableError {
    QueueNotSeekable(QueueNotSeekable),
    NotUsersTrack(NotUsersTrack),
}

/// Checking that a track belongs to the user failed.
#[derive(Clone, Copy, Debug, PartialEq, Eq, Structural)]
pub enum UsersTrackError {
    Cache(Cache),
    NotUsersTrack(NotUsersTrack),
}

/// A check failed that a poll among the listeners may overrule.
#[derive(Clone, Copy, Debug, PartialEq, Eq, Structural)]
pub enum PollResolvableError {
    InVoiceWithSomeoneElse(InVoiceWithSomeoneElse),
    QueueNotSeekable(QueueNotSeekable),
    NotUsersTrack(NotUsersTrack),
}

impl From<QueueSeekableError> for PollResolvableError {
    fn from(value: QueueSeekableError) -> (r: Self) {
        match value {
            QueueSeekableError::QueueNotSeekable(e) => PollResolvableError::QueueNotSeekable(e),
            QueueSeekableError::NotUsersTrack(e) => PollResolvableError::NotUsersTrack(e),
        }
    }
}

impl vstd::std_specs::convert::FromSpecImpl<QueueSeekableError> for PollResolvableError {
    open spec fn obeys_from_spec() -> bool {
        true
    }

    open spec fn from_spec(v: QueueSeekableError) -> Self {
        match v {
            QueueSeekableError::QueueNotSeekable(e) => PollResolvableError::QueueNotSeekable(e),
            QueueSeekableError::NotUsersTrack(e) => PollResolvableError::NotUsersTrack(e),
        }
    }
}

impl PollResolvableError {
    /// What to show the user about this error.
    pub fn pretty_display(&self) -> (r: PrettyPollResolvableErrorDisplayer<'_>)
        ensures
            r == match self {
                PollResolvableError::InVoiceWithSomeoneElse(e) => {
                    PrettyPollResolvableErrorDisplayer::InVoiceWithSomeoneElse(e)
                },
                PollResolvableError::QueueNotSeekable(_) => {
                    PrettyPollResolvableErrorDisplayer::QueueNotSeekable
                },
                PollResolvableError::NotUsersTrack(e) => {
                    PrettyPollResolvableErrorDisplayer::NotUsersTrack(e)
                },
            },
    {
        match self {
            PollResolvableError::InVoiceWithSomeoneElse(e) => {
                PrettyPollResolvableErrorDisplayer::InVoiceWithSomeoneElse(e)
            },
            PollResolvableError::QueueNotSeekable(_) => {
                PrettyPollResolvableErrorDisplayer::QueueNotSeekable
            },
            PollResolvableError::NotUsersTrack(e) => {
                PrettyPollResolvableErrorDisplayer::NotUsersTrack(e)
            },
        }
    }
}

/// What is shown to the user about an error that a poll may overrule.
#[derive(Clone, Copy, Debug)]
pub enum PrettyPollResolvableErrorDisplayer<'a> {
    InVoiceWithSomeoneElse(&'a InVoiceWithSomeoneElse),
    NotUsersTrack(&'a NotUsersTrack),
    QueueNotSeekable,
}

/// Another poll is ongoing in the same guild.
#[derive(Clone, Copy, Debug, PartialEq, Eq, Structural)]
pub struct AnotherPollOngoingError {
    pub message: MessageLinkComponent,
    pub alternate_vote: Option<AlternateVoteResponse>,
}

/// How the ongoing poll took the vote that the user cast by starting another.
#[derive(Clone, Copy, Debug, PartialEq, Eq, Structural)]
pub enum AlternateVoteResponse {
    Casted,
    DjCasted,
    CastDenied,
    CastedAlready(Vote),
}

/// The poll was voided by the given event.
#[derive(Clone, Copy, Debug, PartialEq, Eq, Structural)]
pub struct PollVoidedError(pub VoidingEvent);

impl PollVoidedError {
    /// What to show the user about this error.
    pub fn pretty_display(&self) -> (r: PrettyVoidedErrorDisplayer)
        ensures
            r == match self.0 {
                VoidingEvent::QueueClear => PrettyVoidedErrorDisplayer::QueueClear,
                VoidingEvent::QueueRepeat => PrettyVoidedErrorDisplayer::QueueRepeat,
            },
    {
        match self.0 {
            VoidingEvent::QueueClear => PrettyVoidedErrorDisplayer::QueueClear,
            VoidingEvent::QueueRepeat => PrettyVoidedErrorDisplayer::QueueRepeat,
        }
    }
}

/// What is shown to the user about a voided poll.
#[derive(Clone, Copy, Debug, PartialEq, Eq, Structural)]
pub enum PrettyVoidedErrorDisplayer {
    QueueClear,
    QueueRepeat,
}

impl PrettyVoidedErrorDisplayer {
    /// The text shown to the user.
    pub fn text(&self) -> (r: &'static str)
        ensures
            r@ == match self {
                PrettyVoidedErrorDisplayer::QueueClear => "the queue had been cleared"@,
                PrettyVoidedErrorDisplayer::QueueRepeat => {
                    "the queue had been set to repeat in another manner"@
                },
            },
    {
        match self {
            PrettyVoidedErrorDisplayer::QueueClear => "the queue had been cleared",
            PrettyVoidedErrorDisplayer::QueueRepeat => {
                "the queue had been set to repeat in another manner"
            },
        }
    }
}

/// Holding a poll failed, or the poll was lost.
#[derive(Clone, Copy, Debug, PartialEq, Eq, Structural)]
pub enum HandlePollError {
    AnotherPollOngoing(AnotherPollOngoingError),
    StartPoll(StartPollError),
    EventSend(EventSendError),
    DeserialiseBodyFromHttp(DeserialiseBodyFromHttpError),
    PollLoss(PollLossError),
    PollVoided(PollVoidedError),
    EventRecv(EventRecvError),
}

/// The poll was lost; the check it was to overrule stands.
#[derive(Clone, Copy, Debug, PartialEq, Eq, Structural)]
pub struct PollLossError {
    pub source: PollResolvableError,
    pub kind: PollLossErrorKind,
}

/// How a poll was lost.
#[derive(Clone, Copy, Debug, PartialEq, Eq, Structural)]
pub enum PollLossErrorKind {
    UnanimousLoss,
    TimedOut,
    SupersededLossViaDj,
}

} // verus!
