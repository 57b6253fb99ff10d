//! Wire codec, packet model and client bytecode reader for a legacy online
//! action game, with machine-checked contracts.

pub mod adapter;
pub mod avm2;
pub mod connection;
pub mod cursor;
pub mod data;
pub mod extractor;
pub mod ieee;
pub mod mapping_extractor;
pub mod mappings;
pub mod packets;
pub mod rc4;
pub mod text;
