//! Failures of running a command, before and after it is recognised.

pub use FlattenedUntilUserNotAllowedCommandExecuteError as Fuunacee;

use crate::error::command::{check, AutocompleteError, Error};
use crate::error::InteractionParseError;
use vstd::prelude::*;

verus! {

/// What is known of a command that the bot does not recognise.
#[derive(Clone, Debug, PartialEq, Eq)]
pub struct PartialCommandData {
    pub name: String,
}

/// Running a command failed.
#[derive(Clone, Debug)]
pub enum CommandExecuteError {
    CheckUserAllowed(check::UserAllowedError),
    InteractionParse(InteractionParseError),
    Command(Error),
    UnknownCommand(PartialCommandData),
}

/// A failure to run a command, reduced as far as whether the user may use
/// the bot.
#[derive(Clone, Copy, Debug, PartialEq, Eq, Structural)]
pub enum FlattenedUntilUserNotAllowedCommandExecuteError {
    Sqlx,
    TaskJoin,
    UserNotAllowed,
    InteractionParse,
    UnknownCommand,
    Command,
}

impl CommandExecuteError {
    /// The kind of failure, as far as whether the user may use the bot.
    pub open spec fn flattened_until_user_not_allowed(&self) -> Fuunacee {
        match self {
            CommandExecuteError::CheckUserAllowed(e) => match e {
                check::UserAllowedError::AccessCalculatorBuild(e) => match e {
                    check::AccessCalculatorBuildError::Sqlx(_) => Fuunacee::Sqlx,
                    check::AccessCalculatorBuildError::TaskJoin(_) => Fuunacee::TaskJoin,
                },
                check::UserAllowedError::UserNotAllowed(_) => Fuunacee::UserNotAllowed,
            },
            CommandExecuteError::InteractionParse(_) => Fuunacee::InteractionParse,
            CommandExecuteError::UnknownCommand(_) => Fuunacee::UnknownCommand,
            CommandExecuteError::Command(_) => Fuunacee::Command,
        }
    }

    /// Reduces the failure as far as whether the user may use the bot.
    pub fn flatten_until_user_not_allowed_as(&self) -> (r: Fuunacee)
        ensures
            r == self.flattened_until_user_not_allowed(),
    {
        match self {
            Self::CheckUserAllowed(e) => match e {
                check::UserAllowedError::AccessCalculatorBuild(e) => match e {
                    check::AccessCalculatorBuildError::Sqlx(_) => Fuunacee::Sqlx,
                    check::AccessCalculatorBuildError::TaskJoin(_) => Fuunacee::TaskJoin,
                },
                check::UserAllowedError::UserNotAllowed(_) => Fuunacee::UserNotAllowed,
            },
            Self::InteractionParse(_) => Fuunacee::InteractionParse,
            Self::UnknownCommand(_) => Fuunacee::UnknownCommand,
            Self::Command(_) => Fuunacee::Command,
        }
    }
}

/// Suggesting completions for a command failed.
#[derive(Clone, Debug)]
pub enum AutocompleteExecuteError {
    InteractionParse(InteractionParseError),
    Autocomplete(AutocompleteError),
    UnknownAutocomplete(PartialCommandData),
}

} // verus!
