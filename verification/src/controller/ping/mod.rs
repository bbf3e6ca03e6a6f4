use vstd::prelude::*;

use crate::mysql::{IMysql, MysqlBackend};
use crate::util::errors::Error;

verus! {

/// Answers pings of the node itself.
pub trait IPing {
    fn ping(&self) -> Result<(), Error>;
}

/// Pings the node by pinging its storage.
pub struct Ping {
    pub mysql: MysqlBackend,
}

impl Ping {
    pub fn new(mysql: MysqlBackend) -> (p: Self)
        ensures
            p.mysql == mysql,
    {
        Ping { mysql }
    }
}

impl IPing for Ping {
    /// The node answers when its storage does, which it always does.
    fn ping(&self) -> (r: Result<(), Error>)
        ensures
            r is Ok,
    {
        self.mysql.ping()
    }
}

} // verus!
