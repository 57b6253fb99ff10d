//! The policy-file request that the legacy client may send in place of game
//! traffic, and the answer to it.
//!
//! The server looks at up to 23 bytes of a new connection without taking
//! them. [`classify_preamble`] says what to do with what was seen; the program
//! around the library does it and, where more bytes are needed, looks again.

use vstd::prelude::*;

verus! {

/// The number of bytes of the request.
pub const POLICY_REQUEST_LEN: usize = 23;

/// The request: `<policy-file-request/>` and a zero byte.
pub const POLICY_REQUEST: [u8; 23] = [
    0x3c, 0x70, 0x6f, 0x6c, 0x69, 0x63, 0x79, 0x2d, 0x66, 0x69, 0x6c, 0x65, 0x2d, 0x72, 0x65,
    0x71, 0x75, 0x65, 0x73, 0x74, 0x2f, 0x3e, 0x00,
];

/// The answer: a policy that lets any host reach any port.
pub const POLICY_FILE: &'static str =
    "\n<?xml version=\"1.0\"?>\n<!DOCTYPE cross-domain-policy SYSTEM \"/xml/dtds/cross-domain-policy.dtd\">\n<cross-domain-policy>\n    <site-control permitted-cross-domain-policies=\"all\"/>\n    <allow-access-from domain=\"*\" to-ports=\"*\"/>\n</cross-domain-policy>\n";

/// What to do with a connection, given the bytes seen so far.
#[derive(Debug, Clone, Copy, PartialEq, Eq, Structural)]
pub enum PolicyStep {
    /// The whole request was seen: send the policy file, close the
    /// connection in both directions and offer no game connection.
    SendPolicy,
    /// What was seen is the start of the request: look again for more.
    NeedMore,
    /// This is game traffic: hand the connection on with every byte still
    /// unread.
    GameTraffic,
}

/// What to do with a connection whose first bytes are `seen`.
pub open spec fn spec_classify(seen: Seq<u8>) -> PolicyStep {
    if seen == POLICY_REQUEST@ {
        PolicyStep::SendPolicy
    } else if seen.is_prefix_of(POLICY_REQUEST@) {
        PolicyStep::NeedMore
    } else {
        PolicyStep::GameTraffic
    }
}

/// Decides what to do with a connection whose first bytes are `seen`.
pub fn classify_preamble(seen: &[u8]) -> (step: PolicyStep)
    ensures
        step == spec_classify(seen@),
{
    let request = POLICY_REQUEST;
    if seen.len() > POLICY_REQUEST_LEN {
        return PolicyStep::GameTraffic;
    }
    let mut k: usize = 0;
    while k < seen.len()
        invariant
            k <= seen@.len() <= POLICY_REQUEST_LEN,
            request@ == POLICY_REQUEST@,
            request@.len() == POLICY_REQUEST_LEN,
            forall|i: int| 0 <= i < k ==> seen@[i] == request@[i],
        decreases seen@.len() - k,
    {
        if seen[k] != request[k] {
            return PolicyStep::GameTraffic;
        }
        k += 1;
    }
    assert(seen@ =~= request@.subrange(0, seen@.len() as int));
    if seen.len() == POLICY_REQUEST_LEN {
        assert(seen@ =~= request@);
        PolicyStep::SendPolicy
    } else {
        PolicyStep::NeedMore
    }
}

} // verus!
