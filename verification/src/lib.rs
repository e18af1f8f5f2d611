//! The core of a music bot that plays audio through a Lavalink server: its
//! queue and play orders, track metadata, voice connection bookkeeping, the
//! now-playing message, and how failures are classified and answered.

pub mod answer;
pub mod byte_budget;
pub mod connection;
pub mod error;
pub mod events;
pub mod indexer;
pub mod now_playing;
pub mod permissions;
pub mod player;
pub mod queue;
pub mod track;
