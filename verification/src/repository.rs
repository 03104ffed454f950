//! The entry repository: what is sent to the store for each operation, and
//! what each answer of the store means.
//!
//! The store is called elsewhere. Every function here takes what the store
//! answered and decides the result of the operation, so that a store error is
//! always reported and never read as "no entries".

use vstd::prelude::*;
use crate::clock::unix_now;
use crate::errors::{BragError, Outcome, StoreFailure};
use crate::models::{text_of, CreateEntry, CreateEntryView, Entry, EntryView};

verus! {

/// The statement that lists every entry.
pub const SELECT_ALL: &'static str = "SELECT id, description, link, date FROM entries";

/// The statement that inserts a row; it binds description, link and date.
pub const INSERT: &'static str = "INSERT INTO entries (description, link, date) VALUES (?, ?, ?)";

/// The statement that deletes a row; it binds the id.
pub const DELETE_BY_ID: &'static str = "DELETE FROM entries WHERE id = ?";

/// The mathematical value of a [`NewEntry`].
pub struct NewEntryView {
    pub description: Seq<char>,
    pub link: Option<Seq<char>>,
    pub date: int,
}

impl NewEntryView {
    /// The entry that this row becomes under the id that the store assigned.
    pub open spec fn with_id(self, id: int) -> EntryView {
        EntryView { id, description: self.description, link: self.link, date: self.date }
    }
}

/// A row that passed validation and waits to be inserted. One exists only
/// with a non-empty description, so nothing invalid can reach the store.
#[derive(Debug)]
pub struct NewEntry {
    description: String,
    link: Option<String>,
    date: i64,
}

impl View for NewEntry {
    type V = NewEntryView;

    closed spec fn view(&self) -> NewEntryView {
        NewEntryView {
            description: self.description@,
            link: text_of(self.link),
            date: self.date as int,
        }
    }
}

impl NewEntry {
    #[verifier::type_invariant]
    spec fn described(self) -> bool {
        self.description@.len() > 0
    }

    /// The description to bind; it is never empty.
    pub fn description(&self) -> (text: &String)
        ensures
            text@ == self@.description,
            text@.len() > 0,
    {
        proof {
            use_type_invariant(self);
        }
        &self.description
    }

    /// The link to bind.
    pub fn link(&self) -> (text: &Option<String>)
        ensures
            text_of(*text) == self@.link,
    {
        &self.link
    }

    /// The timestamp to bind.
    pub fn date(&self) -> (date: i64)
        ensures
            date == self@.date,
    {
        self.date
    }
}

/// What validation makes of a request and a timestamp: a refusal where the
/// description is empty, else the row to insert.
pub open spec fn prepared(payload: CreateEntryView, date: int) -> Result<NewEntryView, BragError> {
    if payload.description.len() == 0 {
        Err(BragError::ValidationFailed)
    } else {
        Ok(NewEntryView { description: payload.description, link: payload.link, date })
    }
}

/// Validates a request and stamps it with `date`. The date is the caller's
/// reading of the server clock; the request itself has none.
pub fn prepare(payload: CreateEntry, date: i64) -> (outcome: Result<NewEntry, BragError>)
    ensures
        match outcome {
            Ok(row) => prepared(payload@, date as int) == Ok::<NewEntryView, BragError>(row@),
            Err(error) => prepared(payload@, date as int) == Err::<NewEntryView, BragError>(error),
        },
{
    if payload.description.as_str().is_empty() {
        Err(BragError::ValidationFailed)
    } else {
        Ok(NewEntry { description: payload.description, link: payload.link, date })
    }
}

/// Validates a request and stamps it with the server's current time. An
/// empty description is refused before the clock is read. Any other request
/// becomes a row with the request's description and link; its date is what
/// the clock read, of which nothing is known here. Reading the clock fails
/// only where it stands outside the years that chrono can represent.
pub fn stamp(payload: CreateEntry) -> (outcome: Result<NewEntry, BragError>)
    ensures
        match outcome {
            Ok(row) => prepared(payload@, row@.date) == Ok::<NewEntryView, BragError>(row@),
            Err(error) => payload@.description.len() == 0 && error == BragError::ValidationFailed,
        },
{
    if payload.description.as_str().is_empty() {
        return Err(BragError::ValidationFailed);
    }
    let now = unix_now();
    prepare(payload, now)
}

/// The result of listing: the rows as the store gave them, in its order, or
/// `QueryFailed` where the store failed.
pub fn list_all(fetched: Result<Vec<Entry>, StoreFailure>) -> (outcome: Result<
    Vec<Entry>,
    BragError,
>)
    ensures
        match fetched {
            Ok(rows) => outcome == Ok::<Vec<Entry>, BragError>(rows),
            Err(_) => outcome == Err::<Vec<Entry>, BragError>(BragError::QueryFailed),
        },
{
    match fetched {
        Ok(rows) => Ok(rows),
        Err(_) => Err(BragError::QueryFailed),
    }
}

/// The result of inserting `row`: the full entry under the id that the store
/// assigned, or `InsertFailed` where the store failed.
pub fn insert(row: NewEntry, inserted: Result<i64, StoreFailure>) -> (outcome: Result<
    Entry,
    BragError,
>)
    ensures
        match inserted {
            Ok(id) => outcome is Ok && outcome->Ok_0@ == row@.with_id(id as int),
            Err(_) => outcome == Err::<Entry, BragError>(BragError::InsertFailed),
        },
{
    match inserted {
        Ok(id) => Ok(Entry { id, description: row.description, link: row.link, date: row.date }),
        Err(_) => Err(BragError::InsertFailed),
    }
}

/// The result of deleting by id, from the number of rows that the statement
/// removed: `NotFound` for none, `Deleted` otherwise, or `DeleteFailed` where
/// the store failed.
pub fn delete_by_id(executed: Result<u64, StoreFailure>) -> (outcome: Result<Outcome, BragError>)
    ensures
        outcome == (match executed {
            Ok(removed) => Ok::<Outcome, BragError>(
                if removed == 0 {
                    Outcome::NotFound
                } else {
                    Outcome::Deleted
                },
            ),
            Err(_) => Err::<Outcome, BragError>(BragError::DeleteFailed),
        }),
{
    match executed {
        Ok(removed) => if removed == 0 {
            Ok(Outcome::NotFound)
        } else {
            Ok(Outcome::Deleted)
        },
        Err(_) => Err(BragError::DeleteFailed),
    }
}

} // verus!
