//! Plain descriptors for operational tooling around the router: the
//! environment a deployment runs in, the database flavours such tooling
//! can point at, and the command set of the companion command-line
//! interface.

use vstd::prelude::*;

verus! {

/// Where a deployment runs.
#[derive(Clone, Copy, Debug, PartialEq, Eq, Structural)]
pub enum Environment {
    Production,
    Development,
    Test,
    Staging,
    Local,
}

/// A database flavour, each tied to the environment it serves.
#[derive(Clone, Copy, Debug, PartialEq, Eq, Structural)]
pub enum Database {
    Postgres(Environment),
    Mysql(Environment),
    Sqlite(Environment),
    Mssql(Environment),
    Oracle(Environment),
    Redis(Environment),
    Mongo(Environment),
    Cassandra(Environment),
}

} // verus!
