use vstd::prelude::*;

verus! {

/// A ping sent to a peer.
#[derive(Debug)]
pub struct PingRequest {}

/// A peer's answer to a ping.
#[derive(Debug)]
pub struct PingResponse {
    pub success: bool,
}

} // verus!
