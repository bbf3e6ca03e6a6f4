use vstd::prelude::*;

verus! {

/// What a remote peer answered to a ping query.
#[derive(Debug)]
pub struct QueryPingResponse {}

} // verus!
