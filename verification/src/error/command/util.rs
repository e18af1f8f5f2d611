//! Failures of the helpers commands share: confirmations and joining on the
//! user's behalf.

use crate::error::command::{check, require};
use crate::error::component::connection::join;
use crate::error::respond;
use crate::error::{
    AutoJoinAttemptFailed, Cache, ConfirmationTimedOut, DeserializeBodyError, GatewaySendError,
    InVoiceWithoutUser, LavalinkError, StandbyCanceled, TwilightHttpError,
};
use vstd::prelude::*;

verus! {

/// Asking the user to confirm failed.
#[derive(Clone, Copy, Debug, PartialEq, Eq, Structural)]
pub enum PromptForConfirmationError {
    StandbyCanceled(StandbyCanceled),
    Respond(respond::RespondError),
    ConfirmationTimedout(ConfirmationTimedOut),
}

/// A failure to find the user's voice channel that the user cannot act on.
#[derive(Clone, Copy, Debug, PartialEq, Eq, Structural)]
pub enum ResidualGetUsersVoiceChannelError {
    Cache(Cache),
}

/// A failure to check the user's access that the user cannot act on.
#[derive(Clone, Copy, Debug, PartialEq, Eq, Structural)]
pub enum ResidualUserAllowedError {
    AccessCalculatorBuild(check::AccessCalculatorBuildError),
}

/// A failure of the connection itself that the user cannot act on.
#[derive(Clone, Copy, Debug, PartialEq, Eq, Structural)]
pub enum ResidualImplConnectToError {
    CheckUserAllowed(ResidualUserAllowedError),
    Cache(Cache),
    GatewaySend(GatewaySendError),
    TwilightHttp(TwilightHttpError),
    Lavalink(LavalinkError),
}

/// A failure to connect that the user cannot act on.
#[derive(Clone, Copy, Debug, PartialEq, Eq, Structural)]
pub enum ResidualConnectToNewError {
    ImplConnectTo(ResidualImplConnectToError),
}

/// A failure of joining on the user's behalf that the user cannot act on.
#[derive(Clone, Copy, Debug, PartialEq, Eq, Structural)]
pub enum ResidualImplAutoJoinError {
    GetUsersVoiceChannel(ResidualGetUsersVoiceChannelError),
    ConnectToNew(ResidualConnectToNewError),
}

/// Joining the user's voice channel on their behalf failed.
#[derive(Clone, Copy, Debug, PartialEq, Eq, Structural)]
pub enum AutoJoinAttemptError {
    ImplAutoJoin(ResidualImplAutoJoinError),
    HandleResponse(join::HandleResponseError),
    Failed(AutoJoinAttemptFailed),
}

/// A residual failure of connecting on the user's behalf.
pub open spec fn residual_auto_connect(e: ResidualImplConnectToError) -> AutoJoinAttemptError {
    AutoJoinAttemptError::ImplAutoJoin(
        ResidualImplAutoJoinError::ConnectToNew(ResidualConnectToNewError::ImplConnectTo(e)),
    )
}

/// Whether a failure of connecting is one that joining on the user's behalf
/// can meet: the bot was in no voice channel, so its connection cannot be
/// an unrecognised one.
pub open spec fn auto_connect_failure(error: join::ImplConnectToError) -> bool {
    !(error is UnrecognisedConnection)
}

/// Whether a failure of joining on the user's behalf is one that can occur.
pub open spec fn auto_join_failure(error: join::AutoJoinError) -> bool {
    match error {
        join::AutoJoinError::ImplAutoJoin(
            join::ImplAutoJoinError::ConnectToNew(join::ConnectToNewError::ImplConnectTo(e)),
        ) => auto_connect_failure(e),
        _ => true,
    }
}

impl AutoJoinAttemptError {
    pub open spec fn spec_from_get_users_voice_channel(
        error: join::GetUsersVoiceChannelError,
    ) -> Self {
        match error {
            join::GetUsersVoiceChannelError::UserNotInVoice(e) => Self::Failed(
                AutoJoinAttemptFailed::UserNotInVoice(e),
            ),
            join::GetUsersVoiceChannelError::Cache(e) => Self::ImplAutoJoin(
                ResidualImplAutoJoinError::GetUsersVoiceChannel(
                    ResidualGetUsersVoiceChannelError::Cache(e),
                ),
            ),
        }
    }

    pub open spec fn spec_from_check_user_allowed(error: check::UserAllowedError) -> Self {
        match error {
            check::UserAllowedError::UserNotAllowed(e) => Self::Failed(
                AutoJoinAttemptFailed::UserNotAllowed(e),
            ),
            check::UserAllowedError::AccessCalculatorBuild(e) => residual_auto_connect(
                ResidualImplConnectToError::CheckUserAllowed(
                    ResidualUserAllowedError::AccessCalculatorBuild(e),
                ),
            ),
        }
    }

    pub open spec fn spec_from_impl_connect_to(error: join::ImplConnectToError) -> Self {
        match error {
            join::ImplConnectToError::Lavalink(e) => residual_auto_connect(
                ResidualImplConnectToError::Lavalink(e),
            ),
            join::ImplConnectToError::Forbidden(e) => Self::Failed(
                AutoJoinAttemptFailed::Forbidden(e),
            ),
            join::ImplConnectToError::Cache(e) => residual_auto_connect(
                ResidualImplConnectToError::Cache(e),
            ),
            join::ImplConnectToError::GatewaySend(e) => residual_auto_connect(
                ResidualImplConnectToError::GatewaySend(e),
            ),
            join::ImplConnectToError::TwilightHttp(e) => residual_auto_connect(
                ResidualImplConnectToError::TwilightHttp(e),
            ),
            join::ImplConnectToError::UnrecognisedConnection(_) => arbitrary(),
            join::ImplConnectToError::CheckUserAllowed(e) => Self::spec_from_check_user_allowed(e),
        }
    }

    pub open spec fn spec_from_connect_to_new(error: join::ConnectToNewError) -> Self {
        match error {
            join::ConnectToNewError::UserNotStageModerator(e) => Self::Failed(
                AutoJoinAttemptFailed::UserNotStageModerator(e),
            ),
            join::ConnectToNewError::ImplConnectTo(e) => Self::spec_from_impl_connect_to(e),
        }
    }

    pub open spec fn spec_from_impl_auto_join(error: join::ImplAutoJoinError) -> Self {
        match error {
            join::ImplAutoJoinError::GetUsersVoiceChannel(e) => {
                Self::spec_from_get_users_voice_channel(e)
            },
            join::ImplAutoJoinError::ConnectToNew(e) => Self::spec_from_connect_to_new(e),
        }
    }

    pub open spec fn spec_from_auto_join(error: join::AutoJoinError) -> Self {
        match error {
            join::AutoJoinError::ImplAutoJoin(e) => Self::spec_from_impl_auto_join(e),
            join::AutoJoinError::HandleResponse(e) => Self::HandleResponse(e),
        }
    }

    fn from_get_users_voice_channel(error: join::GetUsersVoiceChannelError) -> (r: Self)
        ensures
            r == Self::spec_from_get_users_voice_channel(error),
    {
        match error {
            join::GetUsersVoiceChannelError::UserNotInVoice(e) => Self::Failed(
                AutoJoinAttemptFailed::UserNotInVoice(e),
            ),
            join::GetUsersVoiceChannelError::Cache(e) => Self::ImplAutoJoin(
                ResidualImplAutoJoinError::GetUsersVoiceChannel(
                    ResidualGetUsersVoiceChannelError::Cache(e),
                ),
            ),
        }
    }

    fn from_check_user_allowed(error: check::UserAllowedError) -> (r: Self)
        ensures
            r == Self::spec_from_check_user_allowed(error),
    {
        match error {
            check::UserAllowedError::UserNotAllowed(e) => Self::Failed(
                AutoJoinAttemptFailed::UserNotAllowed(e),
            ),
            check::UserAllowedError::AccessCalculatorBuild(e) => Self::ImplAutoJoin(
                ResidualImplAutoJoinError::ConnectToNew(
                    ResidualConnectToNewError::ImplConnectTo(
                        ResidualImplConnectToError::CheckUserAllowed(
                            ResidualUserAllowedError::AccessCalculatorBuild(e),
                        ),
                    ),
                ),
            ),
        }
    }

    fn from_impl_connect_to(error: join::ImplConnectToError) -> (r: Self)
        requires
            auto_connect_failure(error),
        ensures
            r == Self::spec_from_impl_connect_to(error),
    {
        match error {
            join::ImplConnectToError::Lavalink(e) => Self::ImplAutoJoin(
                ResidualImplAutoJoinError::ConnectToNew(
                    ResidualConnectToNewError::ImplConnectTo(ResidualImplConnectToError::Lavalink(e)),
                ),
            ),
            join::ImplConnectToError::Forbidden(e) => Self::Failed(
                AutoJoinAttemptFailed::Forbidden(e),
            ),
            join::ImplConnectToError::Cache(e) => Self::ImplAutoJoin(
                ResidualImplAutoJoinError::ConnectToNew(
                    ResidualConnectToNewError::ImplConnectTo(ResidualImplConnectToError::Cache(e)),
                ),
            ),
            join::ImplConnectToError::GatewaySend(e) => Self::ImplAutoJoin(
                ResidualImplAutoJoinError::ConnectToNew(
                    ResidualConnectToNewError::ImplConnectTo(
                        ResidualImplConnectToError::GatewaySend(e),
                    ),
                ),
            ),
            join::ImplConnectToError::TwilightHttp(e) => Self::ImplAutoJoin(
                ResidualImplAutoJoinError::ConnectToNew(
                    ResidualConnectToNewError::ImplConnectTo(
                        ResidualImplConnectToError::TwilightHttp(e),
                    ),
                ),
            ),
            join::ImplConnectToError::CheckUserAllowed(e) => Self::from_check_user_allowed(e),
            join::ImplConnectToError::UnrecognisedConnection(_) => unreached(),
        }
    }

    fn from_connect_to_new(error: join::ConnectToNewError) -> (r: Self)
        requires
            error matches join::ConnectToNewError::ImplConnectTo(e) ==> auto_connect_failure(e),
        ensures
            r == Self::spec_from_connect_to_new(error),
    {
        match error {
            join::ConnectToNewError::UserNotStageModerator(e) => Self::Failed(
                AutoJoinAttemptFailed::UserNotStageModerator(e),
            ),
            join::ConnectToNewError::ImplConnectTo(e) => Self::from_impl_connect_to(e),
        }
    }

    fn from_impl_auto_join(error: join::ImplAutoJoinError) -> (r: Self)
        requires
            auto_join_failure(join::AutoJoinError::ImplAutoJoin(error)),
        ensures
            r == Self::spec_from_impl_auto_join(error),
    {
        match error {
            join::ImplAutoJoinError::GetUsersVoiceChannel(e) => Self::from_get_users_voice_channel(
                e,
            ),
            join::ImplAutoJoinError::ConnectToNew(e) => Self::from_connect_to_new(e),
        }
    }
}

impl join::AutoJoinError {
    /// Sorts a failure of joining on the user's behalf into the failures the
    /// user can act on and the residual ones.
    pub fn unflatten_into_auto_join_attempt(self) -> (r: AutoJoinAttemptError)
        requires
            auto_join_failure(self),
        ensures
            r == AutoJoinAttemptError::spec_from_auto_join(self),
    {
        match self {
            Self::ImplAutoJoin(e) => AutoJoinAttemptError::from_impl_auto_join(e),
            Self::HandleResponse(e) => AutoJoinAttemptError::HandleResponse(e),
        }
    }
}

/// Whether a failure of joining on the user's behalf is one the user can act
/// on.
pub open spec fn auto_join_failure_actionable(error: join::AutoJoinError) -> bool {
    match error {
        join::AutoJoinError::HandleResponse(_) => false,
        join::AutoJoinError::ImplAutoJoin(join::ImplAutoJoinError::GetUsersVoiceChannel(g)) => {
            g is UserNotInVoice
        },
        join::AutoJoinError::ImplAutoJoin(join::ImplAutoJoinError::ConnectToNew(c)) => match c {
            join::ConnectToNewError::UserNotStageModerator(_) => true,
            join::ConnectToNewError::ImplConnectTo(i) => join::connect_failure_actionable(i),
        },
    }
}

/// Sorting a failure of joining on the user's behalf makes it `Failed`
/// exactly when the user can act on it.
pub proof fn lemma_unflatten_sets_apart_actionable(error: join::AutoJoinError)
    requires
        auto_join_failure(error),
    ensures
        AutoJoinAttemptError::spec_from_auto_join(error) is Failed <==> auto_join_failure_actionable(
            error,
        ),
{
}

/// Joining, and joining on the user's behalf, set apart the same failures of
/// connecting as ones the user can act on.
pub proof fn lemma_join_and_auto_join_agree_on_connect(error: join::ImplConnectToError)
    requires
        auto_connect_failure(error),
    ensures
        join::Pfe::spec_from_impl_connect_to(error) is Other <==> !(
        AutoJoinAttemptError::spec_from_impl_connect_to(error) is Failed),
{
}

/// Joining on the user's behalf, or checking that the user is with the bot, failed.
#[derive(Clone, Copy, Debug, PartialEq, Eq, Structural)]
pub enum AutoJoinOrCheckInVoiceWithUserError {
    InVoiceWithoutUser(InVoiceWithoutUser),
    RequireUnsuppressed(require::UnsuppressedError),
    AutoJoinAttempt(AutoJoinAttemptError),
    HandleSuppressedAutoJoin(HandleSuppressedAutoJoinError),
}

/// The bot joined on the user's behalf but cannot be heard.
#[derive(Clone, Copy, Debug, PartialEq, Eq, Structural)]
pub enum HandleSuppressedAutoJoinError {
    DeserializeBody(DeserializeBodyError),
    AutoJoinSuppressed(AutoJoinSuppressedError),
    Respond(respond::RespondError),
}

/// The bot joined on the user's behalf but cannot be heard.
#[derive(Clone, Copy, Debug, PartialEq, Eq, Structural)]
pub enum AutoJoinSuppressedError {
    /// The bot is server muted
    Muted,
    /// The bot has still not become a speaker in the stage
    StillNotSpeaker { last_followup_id: u64 },
}

} // verus!
