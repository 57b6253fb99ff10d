//! The parts of a connection that decide: framing, encryption and the answer
//! to a policy-file request. Moving bytes over the network is left to the
//! program around the library.

pub mod codec;
pub mod policy;
pub mod raw_packet;
