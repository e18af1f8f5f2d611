//! Failures of joining a voice channel, and how the ones the user can act on
//! are set apart.

use crate::error::command::check;
use crate::error::respond::{DeserialiseBodyFromHttpError, RespondError, RespondOrFollowupError};
use crate::error::{
    Cache, ConnectionForbidden, GatewaySendError, InVoiceAlready, LavalinkError, StandbyCanceled,
    TwilightHttpError, UnrecognisedConnection, UserNotAllowed, UserNotInVoice, UserNotStageModerator,
};
use vstd::prelude::*;

pub use PartiallyFlattenedError as Pfe;

verus! {

/// Deleting the notice about an empty voice channel failed.
#[derive(Clone, Copy, Debug, PartialEq, Eq, Structural)]
pub enum DeleteEmptyVoiceNoticeError {
    Http(TwilightHttpError),
    StandbyDropped(StandbyCanceled),
}

/// Finding the voice channel of the user failed.
#[derive(Clone, Copy, Debug, PartialEq, Eq, Structural)]
pub enum GetUsersVoiceChannelError {
    UserNotInVoice(UserNotInVoice),
    Cache(Cache),
}

/// Connecting to a voice channel failed.
#[derive(Clone, Copy, Debug, PartialEq, Eq, Structural)]
pub enum ImplConnectToError {
    Forbidden(ConnectionForbidden),
    CheckUserAllowed(check::UserAllowedError),
    Cache(Cache),
    GatewaySend(GatewaySendError),
    TwilightHttp(TwilightHttpError),
    Lavalink(LavalinkError),
    UnrecognisedConnection(UnrecognisedConnection),
}

/// Connecting, or moving, to a voice channel failed.
#[derive(Clone, Copy, Debug, PartialEq, Eq, Structural)]
pub enum ConnectToError {
    UserNotStageModerator(UserNotStageModerator),
    InVoiceAlready(InVoiceAlready),
    CheckUserOnlyIn(check::UserOnlyInError),
    ImplConnectTo(ImplConnectToError),
}

/// Connecting to a voice channel while in none failed.
#[derive(Clone, Copy, Debug, PartialEq, Eq, Structural)]
pub enum ConnectToNewError {
    UserNotStageModerator(UserNotStageModerator),
    ImplConnectTo(ImplConnectToError),
}

/// Joining a voice channel failed.
#[derive(Clone, Copy, Debug, PartialEq, Eq, Structural)]
pub enum ImplJoinError {
    GetUsersVoiceChannel(GetUsersVoiceChannelError),
    ConnectTo(ConnectToError),
}

/// Joining the user's voice channel on their behalf failed.
#[derive(Clone, Copy, Debug, PartialEq, Eq, Structural)]
pub enum ImplAutoJoinError {
    GetUsersVoiceChannel(GetUsersVoiceChannelError),
    ConnectToNew(ConnectToNewError),
}

/// Answering the user after a join failed.
#[derive(Clone, Copy, Debug, PartialEq, Eq, Structural)]
pub enum HandleResponseError {
    Cache(Cache),
    Respond(RespondError),
    RespondOrFollowup(RespondOrFollowupError),
    DeserialiseBodyFromHttp(DeserialiseBodyFromHttpError),
}

/// Joining the user's voice channel on their behalf failed.
#[derive(Clone, Copy, Debug, PartialEq, Eq, Structural)]
pub enum AutoJoinError {
    ImplAutoJoin(ImplAutoJoinError),
    HandleResponse(HandleResponseError),
}

/// Joining a voice channel failed.
#[derive(Clone, Copy, Debug, PartialEq, Eq, Structural)]
pub enum Error {
    ImplJoin(ImplJoinError),
    HandleResponse(HandleResponseError),
}

/// A failure of a join that is not one the user can act on.
#[derive(Clone, Copy, Debug, PartialEq, Eq, Structural)]
pub enum ResidualError {
    ImplJoin(ResidualImplJoinError),
    HandleResponse(HandleResponseError),
}

/// A failure of the join itself that the user cannot act on.
#[derive(Clone, Copy, Debug, PartialEq, Eq, Structural)]
pub enum ResidualImplJoinError {
    GetUsersVoiceChannel(ResidualGetUsersVoiceChannelError),
    ConnectTo(ResidualConnectToError),
}

/// A failure to find the user's voice channel that the user cannot act on.
#[derive(Clone, Copy, Debug, PartialEq, Eq, Structural)]
pub enum ResidualGetUsersVoiceChannelError {
    Cache(Cache),
}

/// A failure to connect that the user cannot act on.
#[derive(Clone, Copy, Debug, PartialEq, Eq, Structural)]
pub enum ResidualConnectToError {
    CheckUserOnlyIn(check::UserOnlyInError),
    ImplConnectTo(ResidualImplConnectToError),
}

/// A failure of the connection itself that the user cannot act on.
#[derive(Clone, Copy, Debug, PartialEq, Eq, Structural)]
pub enum ResidualImplConnectToError {
    CheckUserAllowed(ResidualUserAllowedError),
    Cache(Cache),
    GatewaySend(GatewaySendError),
    TwilightHttp(TwilightHttpError),
    Lavalink(LavalinkError),
    UnrecognisedConnection(UnrecognisedConnection),
}

/// A failure to check the user's access that the user cannot act on.
#[derive(Clone, Copy, Debug, PartialEq, Eq, Structural)]
pub enum ResidualUserAllowedError {
    AccessCalculatorBuild(check::AccessCalculatorBuildError),
}

/// A join failure, with the ones the user can act on set apart.
#[derive(Clone, Copy, Debug, PartialEq, Eq, Structural)]
pub enum PartiallyFlattenedError {
    UserNotInVoice(UserNotInVoice),
    UserNotStageModerator(UserNotStageModerator),
    UserNotAllowed(UserNotAllowed),
    InVoiceAlready(InVoiceAlready),
    Forbidden(ConnectionForbidden),
    Other(ResidualError),
}

impl Error {
    /// Sets apart the failures that the user can act on; the rest keep their
    /// place in the tree of residual failures.
    pub fn flatten_partially_into(self) -> (r: PartiallyFlattenedError)
        ensures
            r == Pfe::spec_from_join(self),
    {
        match self {
            Self::HandleResponse(e) => Pfe::from_handle_response(e),
            Self::ImplJoin(e) => Pfe::from_impl_join(e),
        }
    }
}

/// A residual failure of connecting.
pub open spec fn residual_connect(e: ResidualImplConnectToError) -> ResidualError {
    ResidualError::ImplJoin(ResidualImplJoinError::ConnectTo(ResidualConnectToError::ImplConnectTo(e)))
}

impl PartiallyFlattenedError {
    pub open spec fn spec_from_join(error: Error) -> Self {
        match error {
            Error::HandleResponse(e) => Self::spec_from_handle_response(e),
            Error::ImplJoin(e) => Self::spec_from_impl_join(e),
        }
    }

    pub open spec fn spec_from_handle_response(error: HandleResponseError) -> Self {
        Self::Other(ResidualError::HandleResponse(error))
    }

    pub open spec fn spec_from_impl_join(error: ImplJoinError) -> Self {
        match error {
            ImplJoinError::GetUsersVoiceChannel(e) => Self::spec_from_get_users_voice_channel(e),
            ImplJoinError::ConnectTo(e) => Self::spec_from_connect_to(e),
        }
    }

    pub open spec fn spec_from_get_users_voice_channel(error: GetUsersVoiceChannelError) -> Self {
        match error {
            GetUsersVoiceChannelError::UserNotInVoice(e) => Self::UserNotInVoice(e),
            GetUsersVoiceChannelError::Cache(e) => Self::Other(
                ResidualError::ImplJoin(
                    ResidualImplJoinError::GetUsersVoiceChannel(
                        ResidualGetUsersVoiceChannelError::Cache(e),
                    ),
                ),
            ),
        }
    }

    pub open spec fn spec_from_impl_connect_to(error: ImplConnectToError) -> Self {
        match error {
            ImplConnectToError::Forbidden(e) => Self::Forbidden(e),
            ImplConnectToError::Cache(e) => Self::Other(
                residual_connect(ResidualImplConnectToError::Cache(e)),
            ),
            ImplConnectToError::GatewaySend(e) => Self::Other(
                residual_connect(ResidualImplConnectToError::GatewaySend(e)),
            ),
            ImplConnectToError::TwilightHttp(e) => Self::Other(
                residual_connect(ResidualImplConnectToError::TwilightHttp(e)),
            ),
            ImplConnectToError::Lavalink(e) => Self::Other(
                residual_connect(ResidualImplConnectToError::Lavalink(e)),
            ),
            ImplConnectToError::UnrecognisedConnection(e) => Self::Other(
                residual_connect(ResidualImplConnectToError::UnrecognisedConnection(e)),
            ),
            ImplConnectToError::CheckUserAllowed(e) => Self::spec_from_check_user_allowed(e),
        }
    }

    pub open spec fn spec_from_connect_to(error: ConnectToError) -> Self {
        match error {
            ConnectToError::UserNotStageModerator(e) => Self::UserNotStageModerator(e),
            ConnectToError::InVoiceAlready(e) => Self::InVoiceAlready(e),
            ConnectToError::CheckUserOnlyIn(e) => Self::Other(
                ResidualError::ImplJoin(
                    ResidualImplJoinError::ConnectTo(ResidualConnectToError::CheckUserOnlyIn(e)),
                ),
            ),
            ConnectToError::ImplConnectTo(e) => Self::spec_from_impl_connect_to(e),
        }
    }

    pub open spec fn spec_from_check_user_allowed(error: check::UserAllowedError) -> Self {
        match error {
            check::UserAllowedError::AccessCalculatorBuild(e) => Self::Other(
                residual_connect(
                    ResidualImplConnectToError::CheckUserAllowed(
                        ResidualUserAllowedError::AccessCalculatorBuild(e),
                    ),
                ),
            ),
            check::UserAllowedError::UserNotAllowed(e) => Self::UserNotAllowed(e),
        }
    }

    fn from_handle_response(error: HandleResponseError) -> (r: Self)
        ensures
            r == Self::spec_from_handle_response(error),
    {
        match error {
            HandleResponseError::Cache(e) => Self::Other(
                ResidualError::HandleResponse(HandleResponseError::Cache(e)),
            ),
            HandleResponseError::RespondOrFollowup(e) => Self::Other(
                ResidualError::HandleResponse(HandleResponseError::RespondOrFollowup(e)),
            ),
            HandleResponseError::DeserialiseBodyFromHttp(e) => Self::Other(
                ResidualError::HandleResponse(HandleResponseError::DeserialiseBodyFromHttp(e)),
            ),
            HandleResponseError::Respond(e) => Self::Other(
                ResidualError::HandleResponse(HandleResponseError::Respond(e)),
            ),
        }
    }

    fn from_impl_join(error: ImplJoinError) -> (r: Self)
        ensures
            r == Self::spec_from_impl_join(error),
    {
        match error {
            ImplJoinError::GetUsersVoiceChannel(e) => Self::from_get_users_voice_channel(e),
            ImplJoinError::ConnectTo(e) => Self::from_connect_to(e),
        }
    }

    fn from_get_users_voice_channel(error: GetUsersVoiceChannelError) -> (r: Self)
        ensures
            r == Self::spec_from_get_users_voice_channel(error),
    {
        match error {
            GetUsersVoiceChannelError::UserNotInVoice(e) => Self::UserNotInVoice(e),
            GetUsersVoiceChannelError::Cache(e) => Self::Other(
                ResidualError::ImplJoin(
                    ResidualImplJoinError::GetUsersVoiceChannel(
                        ResidualGetUsersVoiceChannelError::Cache(e),
                    ),
                ),
            ),
        }
    }

    fn from_impl_connect_to(error: ImplConnectToError) -> (r: Self)
        ensures
            r == Self::spec_from_impl_connect_to(error),
    {
        match error {
            ImplConnectToError::Forbidden(e) => Self::Forbidden(e),
            ImplConnectToError::Cache(e) => Self::Other(
                ResidualError::ImplJoin(
                    ResidualImplJoinError::ConnectTo(
                        ResidualConnectToError::ImplConnectTo(ResidualImplConnectToError::Cache(e)),
                    ),
                ),
            ),
            ImplConnectToError::GatewaySend(e) => Self::Other(
                ResidualError::ImplJoin(
                    ResidualImplJoinError::ConnectTo(
                        ResidualConnectToError::ImplConnectTo(
                            ResidualImplConnectToError::GatewaySend(e),
                        ),
                    ),
                ),
            ),
            ImplConnectToError::TwilightHttp(e) => Self::Other(
                ResidualError::ImplJoin(
                    ResidualImplJoinError::ConnectTo(
                        ResidualConnectToError::ImplConnectTo(
                            ResidualImplConnectToError::TwilightHttp(e),
                        ),
                    ),
                ),
            ),
            ImplConnectToError::Lavalink(e) => Self::Other(
                ResidualError::ImplJoin(
                    ResidualImplJoinError::ConnectTo(
                        ResidualConnectToError::ImplConnectTo(
                            ResidualImplConnectToError::Lavalink(e),
                        ),
                    ),
                ),
            ),
            ImplConnectToError::UnrecognisedConnection(e) => Self::Other(
                ResidualError::ImplJoin(
                    ResidualImplJoinError::ConnectTo(
                        ResidualConnectToError::ImplConnectTo(
                            ResidualImplConnectToError::UnrecognisedConnection(e),
                        ),
                    ),
                ),
            ),
            ImplConnectToError::CheckUserAllowed(e) => Self::from_check_user_allowed(e),
        }
    }

    fn from_connect_to(error: ConnectToError) -> (r: Self)
        ensures
            r == Self::spec_from_connect_to(error),
    {
        match error {
            ConnectToError::UserNotStageModerator(e) => Self::UserNotStageModerator(e),
            ConnectToError::InVoiceAlready(e) => Self::InVoiceAlready(e),
            ConnectToError::CheckUserOnlyIn(e) => Self::from_check_user_only_in(e),
            ConnectToError::ImplConnectTo(e) => Self::from_impl_connect_to(e),
        }
    }

    fn from_check_user_allowed(error: check::UserAllowedError) -> (r: Self)
        ensures
            r == Self::spec_from_check_user_allowed(error),
    {
        match error {
            check::UserAllowedError::AccessCalculatorBuild(e) => Self::Other(
                ResidualError::ImplJoin(
                    ResidualImplJoinError::ConnectTo(
                        ResidualConnectToError::ImplConnectTo(
                            ResidualImplConnectToError::CheckUserAllowed(
                                ResidualUserAllowedError::AccessCalculatorBuild(e),
                            ),
                        ),
                    ),
                ),
            ),
            check::UserAllowedError::UserNotAllowed(e) => Self::UserNotAllowed(e),
        }
    }

    fn from_check_user_only_in(error: check::UserOnlyInError) -> (r: Self)
        ensures
            r == Self::Other(
                ResidualError::ImplJoin(
                    ResidualImplJoinError::ConnectTo(ResidualConnectToError::CheckUserOnlyIn(error)),
                ),
            ),
    {
        match error {
            check::UserOnlyInError::Cache(e) => Self::Other(
                ResidualError::ImplJoin(
                    ResidualImplJoinError::ConnectTo(
                        ResidualConnectToError::CheckUserOnlyIn(check::UserOnlyInError::Cache(e)),
                    ),
                ),
            ),
            check::UserOnlyInError::InVoiceWithSomeoneElse(e) => Self::Other(
                ResidualError::ImplJoin(
                    ResidualImplJoinError::ConnectTo(
                        ResidualConnectToError::CheckUserOnlyIn(
                            check::UserOnlyInError::InVoiceWithSomeoneElse(e),
                        ),
                    ),
                ),
            ),
        }
    }
}

/// Whether a failure of connecting is one the user can act on: the bot may
/// not connect there, or the user may not use the bot there.
pub open spec fn connect_failure_actionable(error: ImplConnectToError) -> bool {
    ||| error is Forbidden
    ||| (error matches ImplConnectToError::CheckUserAllowed(c) && c is UserNotAllowed)
}

/// Whether a failure of joining is one the user can act on.
pub open spec fn join_failure_actionable(error: Error) -> bool {
    match error {
        Error::HandleResponse(_) => false,
        Error::ImplJoin(ImplJoinError::GetUsersVoiceChannel(g)) => g is UserNotInVoice,
        Error::ImplJoin(ImplJoinError::ConnectTo(c)) => match c {
            ConnectToError::UserNotStageModerator(_) => true,
            ConnectToError::InVoiceAlready(_) => true,
            ConnectToError::CheckUserOnlyIn(_) => false,
            ConnectToError::ImplConnectTo(i) => connect_failure_actionable(i),
        },
    }
}

/// Partial flattening leaves a failure among the residual ones exactly when
/// the user cannot act on it.
pub proof fn lemma_partial_flatten_sets_apart_actionable(error: Error)
    ensures
        Pfe::spec_from_join(error) is Other <==> !join_failure_actionable(error),
{
}

} // verus!
