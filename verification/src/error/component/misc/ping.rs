//! Failures of the ping command.

use crate::error::respond::RespondError;
use vstd::prelude::*;

verus! {

/// Answering a ping failed.
#[derive(Clone, Copy, Debug, PartialEq, Eq, Structural)]
pub enum PingError {
    Respond(RespondError),
    NoHeartbeatSent,
}

/// Answering a ping failed after a heartbeat was found.
#[derive(Clone, Copy, Debug, PartialEq, Eq, Structural)]
pub enum PingResidualError {
    Respond(RespondError),
}

} // verus!
