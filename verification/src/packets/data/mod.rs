//! The values that packets are made of.

pub mod basic;
pub mod stat;
