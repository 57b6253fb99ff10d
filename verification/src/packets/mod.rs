//! The packets of the game protocol.

pub mod client;
pub mod data;
pub mod definitions;
pub mod server;
