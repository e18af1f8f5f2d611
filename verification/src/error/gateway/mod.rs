//! Failures while handling events of the gateway.

pub mod component;
