//! The kinds of database that a connection string can name.

use vstd::prelude::*;

verus! {

#[derive(Debug, Clone, Copy, PartialEq, Eq, Structural)]
pub enum Database {
    Postgres,
    MySql,
    Sqlite,
}

impl Database {
    /// The connection string of each kind, as a sequence of characters.
    pub open spec fn connection_string(self) -> Seq<char> {
        match self {
            Database::Postgres => "postgres://..."@,
            Database::MySql => "mysql://..."@,
            Database::Sqlite => "sqlite://..."@,
        }
    }

    /// The connection string for this kind of database.
    pub fn get_connection_string(&self) -> (url: &'static str)
        ensures
            url@ == self.connection_string(),
    {
        match self {
            Database::Postgres => "postgres://...",
            Database::MySql => "mysql://...",
            Database::Sqlite => "sqlite://...",
        }
    }
}

} // verus!
