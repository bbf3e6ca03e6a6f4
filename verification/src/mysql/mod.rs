mod mock;
mod mysql;

pub use mock::MysqlMock;
pub use mysql::Mysql;

use vstd::prelude::*;

use crate::config::{Config, IConfig, Storage, StorageView};
use crate::util::errors::Error;

verus! {

/// A storage backend.
pub trait IMysql {
    /// Checks that the storage answers.
    fn ping(&self) -> Result<(), Error>;
}

/// The storage backend that the configuration selects.
pub enum MysqlBackend {
    Mysql(Mysql),
    Mock(MysqlMock),
}

impl IMysql for MysqlBackend {
    fn ping(&self) -> (r: Result<(), Error>)
        ensures
            r is Ok,
    {
        match self {
            MysqlBackend::Mysql(m) => m.ping(),
            MysqlBackend::Mock(m) => m.ping(),
        }
    }
}

/// Builds the storage backend that the configuration names.
pub struct MysqlProvider;

impl MysqlProvider {
    /// A fresh mock for mock storage; a database client with the configured
    /// settings for MySQL storage.
    pub fn provide(&self, config: &Config) -> (b: MysqlBackend)
        ensures
            config.storage@ is Mock <==> b is Mock,
            b matches MysqlBackend::Mock(m) ==> m.pings@ == Map::<String, i32>::empty(),
            config.storage@ matches StorageView::Mysql(c) ==> (b matches MysqlBackend::Mysql(m)
                && m.config@ == c),
    {
        match config.storage() {
            Storage::Mock => MysqlBackend::Mock(MysqlMock::new()),
            Storage::Mysql(c) => MysqlBackend::Mysql(Mysql::new(c)),
        }
    }
}

} // verus!
