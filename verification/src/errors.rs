//! The failures of the service and the status that each one is answered with.

use vstd::prelude::*;

verus! {

/// Status of a request that was served.
pub const OK: u16 = 200;

/// Status of a request that created an entry.
pub const CREATED: u16 = 201;

/// Status of a request that the client has to correct.
pub const BAD_REQUEST: u16 = 400;

/// Status of a request for an entry that does not exist.
pub const NOT_FOUND: u16 = 404;

/// Status of a request that failed on the server side.
pub const INTERNAL_SERVER_ERROR: u16 = 500;

/// Says that the store reported an error. What the store said is logged where
/// the store is called and goes no further, so no answer can carry it.
#[derive(Clone, Copy, Debug, PartialEq, Eq, Structural)]
pub struct StoreFailure;

/// Everything that can go wrong.
#[derive(Clone, Copy, Debug, PartialEq, Eq, Structural)]
pub enum BragError {
    /// The store could not be reached at startup.
    StorageUnavailable,
    /// A schema migration failed at startup.
    MigrationFailed,
    /// The client's input was refused before any store call.
    ValidationFailed,
    /// The store failed while listing.
    QueryFailed,
    /// The store failed while inserting.
    InsertFailed,
    /// The store failed while deleting.
    DeleteFailed,
    /// No entry has the given id.
    NotFound,
}

impl BragError {
    /// Startup errors end the process; all others are answered to a client.
    pub open spec fn fatal(self) -> bool {
        self == BragError::StorageUnavailable || self == BragError::MigrationFailed
    }

    /// The status that answers this error: 400 for refused input, 404 for a
    /// missing entry, 500 for every failure on the server side.
    pub open spec fn status(self) -> int {
        match self {
            BragError::ValidationFailed => 400,
            BragError::NotFound => 404,
            _ => 500,
        }
    }

    /// The text shown to a client. It depends on the kind of error alone.
    pub open spec fn text(self) -> Seq<char> {
        match self {
            BragError::ValidationFailed => "invalid request"@,
            BragError::NotFound => "entry not found"@,
            _ => "internal server error"@,
        }
    }

    pub fn is_fatal(&self) -> (fatal: bool)
        ensures
            fatal == self.fatal(),
    {
        match self {
            BragError::StorageUnavailable | BragError::MigrationFailed => true,
            _ => false,
        }
    }

    pub fn status_code(&self) -> (status: u16)
        ensures
            status == self.status(),
    {
        match self {
            BragError::ValidationFailed => BAD_REQUEST,
            BragError::NotFound => NOT_FOUND,
            _ => INTERNAL_SERVER_ERROR,
        }
    }

    pub fn message(&self) -> (text: &'static str)
        ensures
            text@ == self.text(),
    {
        match self {
            BragError::ValidationFailed => "invalid request",
            BragError::NotFound => "entry not found",
            _ => "internal server error",
        }
    }
}

/// What deleting by id found.
#[derive(Clone, Copy, Debug, PartialEq, Eq, Structural)]
pub enum Outcome {
    /// A row had the id and was removed.
    Deleted,
    /// No row had the id; nothing changed.
    NotFound,
}

} // verus!
