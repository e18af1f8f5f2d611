//! Failures while the bot starts and stops.

use crate::error::WatchSendError;
use vstd::prelude::*;

verus! {

/// Declares `std::io::Error`, which is carried through as it is.
#[verifier::external_type_specification]
#[verifier::external_body]
pub struct ExIoError(std::io::Error);

/// Registering the handler of the shutdown signal failed.
#[derive(Debug)]
pub enum WaitForSignalError {
    Io(std::io::Error),
}

/// Waiting for the shutdown of the bot failed.
#[derive(Debug)]
pub enum WaitUntilShutdownError {
    WaitForSignal(WaitForSignalError),
    Send(WatchSendError),
}

} // verus!
