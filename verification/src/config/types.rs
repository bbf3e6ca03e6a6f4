use vstd::prelude::*;
use vstd::string::*;

verus! {

/// Connection settings of a MySQL database.
#[derive(Debug)]
pub struct Mysql {
    pub username: String,
    pub password: String,
    pub host: String,
    pub port: u16,
    pub db_name: String,
}

/// The settings of a [`Mysql`] as mathematical values.
pub struct MysqlView {
    pub username: Seq<char>,
    pub password: Seq<char>,
    pub host: Seq<char>,
    pub port: u16,
    pub db_name: Seq<char>,
}

impl View for Mysql {
    type V = MysqlView;

    open spec fn view(&self) -> MysqlView {
        MysqlView {
            username: self.username@,
            password: self.password@,
            host: self.host@,
            port: self.port,
            db_name: self.db_name@,
        }
    }
}

impl Clone for Mysql {
    fn clone(&self) -> (c: Self)
        ensures
            c@ == self@,
    {
        Mysql {
            username: self.username.clone(),
            password: self.password.clone(),
            host: self.host.clone(),
            port: self.port,
            db_name: self.db_name.clone(),
        }
    }
}

impl Default for Mysql {
    /// Empty texts and port zero.
    fn default() -> (m: Self)
        ensures
            m@ == (MysqlView {
                username: Seq::empty(),
                password: Seq::empty(),
                host: Seq::empty(),
                port: 0,
                db_name: Seq::empty(),
            }),
    {
        Mysql {
            username: String::new(),
            password: String::new(),
            host: String::new(),
            port: 0,
            db_name: String::new(),
        }
    }
}

/// Where the node keeps its data: a MySQL database, or an in-memory mock.
#[derive(Debug)]
pub enum Storage {
    Mysql(Mysql),
    Mock,
}

/// A [`Storage`] as a mathematical value.
pub enum StorageView {
    Mysql(MysqlView),
    Mock,
}

impl View for Storage {
    type V = StorageView;

    open spec fn view(&self) -> StorageView {
        match self {
            Storage::Mysql(m) => StorageView::Mysql(m@),
            Storage::Mock => StorageView::Mock,
        }
    }
}

impl Clone for Storage {
    fn clone(&self) -> (c: Self)
        ensures
            c@ == self@,
    {
        match self {
            Storage::Mysql(m) => Storage::Mysql(m.clone()),
            Storage::Mock => Storage::Mock,
        }
    }
}

impl Default for Storage {
    /// Storage defaults to the mock.
    fn default() -> (s: Self)
        ensures
            s@ == StorageView::Mock,
    {
        Storage::Mock
    }
}

/// Settings of the gRPC server.
#[derive(Debug, Clone, Copy, PartialEq, Eq, Structural)]
pub struct Grpc {
    pub port: u16,
}

impl Default for Grpc {
    fn default() -> (g: Self)
        ensures
            g == (Grpc { port: 0 }),
    {
        Grpc { port: 0 }
    }
}

/// Which components log what they receive.
#[derive(Debug, Clone, Copy, PartialEq, Eq, Structural)]
pub struct Log {
    pub handler: bool,
    pub controller: bool,
}

impl Default for Log {
    fn default() -> (l: Self)
        ensures
            l == (Log { handler: false, controller: false }),
    {
        Log { handler: false, controller: false }
    }
}

} // verus!
