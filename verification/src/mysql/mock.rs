use vstd::prelude::*;
use std::collections::HashMap;

use super::IMysql;
use crate::util::errors::Error;

verus! {

/// In-memory storage for tests and local runs.
pub struct MysqlMock {
    pub pings: HashMap<String, i32>,
}

impl MysqlMock {
    /// A mock that has recorded nothing.
    pub fn new() -> (m: Self)
        ensures
            m.pings@ == Map::<String, i32>::empty(),
    {
        MysqlMock { pings: HashMap::new() }
    }
}

impl IMysql for MysqlMock {
    /// The mock always answers.
    fn ping(&self) -> (r: Result<(), Error>)
        ensures
            r is Ok,
    {
        Ok(())
    }
}

} // verus!
