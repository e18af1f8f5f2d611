//! Failures of the miscellaneous commands.

pub mod ping;
