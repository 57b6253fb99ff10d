//! Values that describe the game client.

pub mod hex;
pub mod parameters;
pub mod xml;
