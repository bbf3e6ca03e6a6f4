use vstd::prelude::*;
use vstd::string::*;

use crate::util::errors::Error;

verus! {

/// A gRPC status with code `Internal` and a message for the client.
#[derive(Debug)]
pub struct InternalStatus {
    pub message: String,
}

/// The answer to a ping request, given how the local ping went: success,
/// or an internal status "ping failed".
pub fn ping_reply(outcome: &Result<(), Error>) -> (r: Result<(), InternalStatus>)
    ensures
        r is Ok <==> outcome is Ok,
        r matches Err(s) ==> s.message@ == "ping failed"@,
{
    match outcome {
        Ok(_) => Ok(()),
        Err(_) => Err(InternalStatus { message: String::from_str("ping failed") }),
    }
}

/// The answer to a remote ping request, given how the remote ping went:
/// success, or an internal status "remote ping failed".
pub fn ping_remote_reply(outcome: &Result<(), Error>) -> (r: Result<(), InternalStatus>)
    ensures
        r is Ok <==> outcome is Ok,
        r matches Err(s) ==> s.message@ == "remote ping failed"@,
{
    match outcome {
        Ok(_) => Ok(()),
        Err(_) => Err(InternalStatus { message: String::from_str("remote ping failed") }),
    }
}

} // verus!
