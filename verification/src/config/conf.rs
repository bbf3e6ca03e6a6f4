use vstd::prelude::*;
use vstd::string::*;

use super::types::{Grpc, Log, Mysql, MysqlView, Storage, StorageView};
use super::IConfig;

verus! {

/// The configuration of the node.
#[derive(Debug)]
pub struct Config {
    pub grpc: Grpc,
    pub log: Log,
    pub storage: Storage,
}

/// A [`Config`] as a mathematical value.
pub struct ConfigView {
    pub grpc: Grpc,
    pub log: Log,
    pub storage: StorageView,
}

impl View for Config {
    type V = ConfigView;

    open spec fn view(&self) -> ConfigView {
        ConfigView { grpc: self.grpc, log: self.log, storage: self.storage@ }
    }
}

/// The configuration written for an environment that has none yet.
pub open spec fn initial_config() -> ConfigView {
    ConfigView {
        storage: StorageView::Mysql(
            MysqlView {
                username: "mysql"@,
                password: "mysql"@,
                host: "localhost"@,
                port: 3306,
                db_name: "db"@,
            },
        ),
        grpc: Grpc { port: 2000 },
        log: Log { handler: false, controller: false },
    }
}

impl Clone for Config {
    fn clone(&self) -> (c: Self)
        ensures
            c@ == self@,
    {
        Config { grpc: self.grpc, log: self.log, storage: self.storage.clone() }
    }
}

impl IConfig for Config {
    fn grpc(&self) -> (g: Grpc)
        ensures
            g == self.grpc,
    {
        self.grpc
    }

    fn log(&self) -> (l: Log)
        ensures
            l == self.log,
    {
        self.log
    }

    fn storage(&self) -> (s: Storage)
        ensures
            s@ == self.storage@,
    {
        self.storage.clone()
    }
}

impl Config {
    /// The configuration of a new environment: a local MySQL database
    /// `db` on port 3306 as user `mysql`, gRPC on port 2000, no logging.
    pub fn default() -> (c: Self)
        ensures
            c@ == initial_config(),
    {
        Config {
            storage: Storage::Mysql(
                Mysql {
                    username: String::from_str("mysql"),
                    password: String::from_str("mysql"),
                    host: String::from_str("localhost"),
                    port: 3306,
                    db_name: String::from_str("db"),
                },
            ),
            grpc: Grpc { port: 2000 },
            log: Log { handler: false, controller: false },
        }
    }
}

impl Default for Config {
    /// Every field at its own default: gRPC port 0, no logging, mock storage.
    fn default() -> (c: Self)
        ensures
            c@ == (ConfigView {
                grpc: Grpc { port: 0 },
                log: Log { handler: false, controller: false },
                storage: StorageView::Mock,
            }),
    {
        Config {
            grpc: Grpc { port: 0 },
            log: Log { handler: false, controller: false },
            storage: Storage::Mock,
        }
    }
}

} // verus!
