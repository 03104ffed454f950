//! The storage gateway: which store to open, what its schema is, and what
//! becomes of a failure while the process starts.
//!
//! Opening the store and applying the migrations is done where the store's
//! client lives. The outcome of each is handed in here; a failure of either
//! is fatal, and the process must not serve a request after one.

use vstd::prelude::*;
use crate::errors::{BragError, StoreFailure};

verus! {

/// The environment variable that selects the store.
pub const DATABASE_URL: &'static str = "DATABASE_URL";

/// The store that is opened where none is configured: a local file, created
/// on the first run.
pub const DEFAULT_DATABASE_URL: &'static str = "sqlite:brag.db?mode=rwc";

/// The schema of the one table. The statement can be applied any number of
/// times.
pub const CREATE_ENTRIES: &'static str =
    "CREATE TABLE IF NOT EXISTS entries (id INTEGER PRIMARY KEY AUTOINCREMENT, description TEXT NOT NULL, link TEXT NULL, date INTEGER NOT NULL)";

/// One step of the schema's history.
#[derive(Clone, Copy, Debug, PartialEq, Eq)]
pub struct Migration {
    pub version: i64,
    pub description: &'static str,
    pub sql: &'static str,
}

/// The versions rise from each migration to the next, so there is one order
/// in which to apply them.
pub open spec fn ordered(list: Seq<Migration>) -> bool {
    forall|j: int, k: int|
        0 <= j < k < list.len() ==> (#[trigger] list[j]).version < (#[trigger] list[k]).version
}

/// Every migration of the schema, in the order in which they are applied.
pub fn migrations() -> (list: Vec<Migration>)
    ensures
        ordered(list@),
        list@.len() == 1,
        list@[0].version == 1,
        list@[0].description@ == "create entries"@,
        list@[0].sql@ == CREATE_ENTRIES@,
{
    let mut list: Vec<Migration> = Vec::new();
    list.push(Migration { version: 1, description: "create entries", sql: CREATE_ENTRIES });
    list
}

/// The connection string to open: the configured one, or the default where
/// none is configured.
pub fn database_url(configured: Option<String>) -> (url: String)
    ensures
        url@ == (match configured {
            Some(chosen) => chosen@,
            None => DEFAULT_DATABASE_URL@,
        }),
{
    match configured {
        Some(chosen) => chosen,
        None => DEFAULT_DATABASE_URL.to_owned(),
    }
}

/// The mathematical value of a [`DB`].
pub struct DBView<P> {
    pub connections: P,
    pub database_url: Seq<char>,
}

/// A store that was opened: the handle to its connections and the connection
/// string it was opened with. One is made at startup and handed to the
/// request handlers; there is no global one. The kind of handle is the
/// caller's, who opens the store.
#[derive(Debug)]
pub struct DB<P> {
    connections: P,
    database_url: String,
}

impl<P> View for DB<P> {
    type V = DBView<P>;

    closed spec fn view(&self) -> DBView<P> {
        DBView { connections: self.connections, database_url: self.database_url@ }
    }
}

impl<P> DB<P> {
    /// Makes the gateway from the outcome of opening the store at `url`: it
    /// holds the handle that was opened, or there is none and the error is
    /// `StorageUnavailable`.
    pub fn new(url: String, opened: Result<P, StoreFailure>) -> (gateway: Result<DB<P>, BragError>)
        ensures
            match opened {
                Ok(connections) => gateway is Ok && gateway->Ok_0@ == (DBView {
                    connections,
                    database_url: url@,
                }),
                Err(_) => gateway == Err::<DB<P>, BragError>(BragError::StorageUnavailable),
            },
    {
        match opened {
            Ok(connections) => Ok(DB { connections, database_url: url }),
            Err(_) => Err(BragError::StorageUnavailable),
        }
    }

    /// Gives the result of applying the migrations from the outcome of
    /// running them: `MigrationFailed` where any step failed.
    pub fn run_migrations(&self, applied: Result<(), StoreFailure>) -> (outcome: Result<
        (),
        BragError,
    >)
        ensures
            outcome == (match applied {
                Ok(_) => Ok::<(), BragError>(()),
                Err(_) => Err::<(), BragError>(BragError::MigrationFailed),
            }),
    {
        match applied {
            Ok(_) => Ok(()),
            Err(_) => Err(BragError::MigrationFailed),
        }
    }

    /// The handle to the store's connections.
    pub fn connections(&self) -> (connections: &P)
        ensures
            *connections == self@.connections,
    {
        &self.connections
    }

    /// The connection string that the store was opened with.
    pub fn database_url(&self) -> (url: &String)
        ensures
            url@ == self@.database_url,
    {
        &self.database_url
    }
}

} // verus!
