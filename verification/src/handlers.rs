//! Handlers that answer packets.
pub mod connect_handler;
