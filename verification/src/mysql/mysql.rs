use vstd::prelude::*;

use super::IMysql;
use crate::config;
use crate::util::errors::Error;

verus! {

/// Storage backed by a MySQL database.
pub struct Mysql {
    pub config: config::Mysql,
}

impl Mysql {
    pub fn new(config: config::Mysql) -> (m: Self)
        ensures
            m.config@ == config@,
    {
        Mysql { config }
    }
}

impl IMysql for Mysql {
    /// The database always answers.
    fn ping(&self) -> (r: Result<(), Error>)
        ensures
            r is Ok,
    {
        Ok(())
    }
}

} // verus!
