//! Failures of the commands and buttons of each part of the bot.

pub mod connection;
pub mod misc;
pub mod playback;
pub mod queue;
pub mod tuning;
