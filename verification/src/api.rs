//! The HTTP API layer: the status and the body that answer each request.
//!
//! Three routes exist: `GET /entries`, `POST /entries` and
//! `DELETE /entries/{id}`. The functions here take what the repository made
//! of a request and give the answer to send. Bodies are encoded as JSON where
//! they are sent.

use vstd::prelude::*;
use crate::errors::{BragError, Outcome, CREATED, OK};
use crate::models::{entry_views, Entry, EntryView};

verus! {

/// The path of the routes that list and create.
pub const ENTRIES: &'static str = "/entries";

/// The path of the route that deletes; its last segment is the id.
pub const ENTRY: &'static str = "/entries/{id}";

/// Why a request could not be decoded.
#[derive(Clone, Copy, Debug, PartialEq, Eq, Structural)]
pub enum Rejection {
    /// The body of a creation is no JSON object with a text `description`
    /// and, if present, a text or null `link`.
    MalformedBody,
    /// The id in the path of a deletion is no 64-bit integer.
    MalformedId,
}

/// The mathematical value of a [`Body`].
pub enum BodyView {
    Entries(Seq<EntryView>),
    Entry(EntryView),
    Empty,
    Error(BragError),
}

/// What an answer carries.
#[derive(Debug, PartialEq, Eq)]
pub enum Body {
    /// A list of entries, sent as an array.
    Entries(Vec<Entry>),
    /// One entry, sent as an object.
    Entry(Entry),
    /// Nothing to report, sent as an empty object.
    Empty,
    /// A failure, sent as an object that holds the error's public text.
    Error(BragError),
}

impl View for Body {
    type V = BodyView;

    open spec fn view(&self) -> BodyView {
        match self {
            Body::Entries(entries) => BodyView::Entries(entry_views(entries@)),
            Body::Entry(entry) => BodyView::Entry(entry@),
            Body::Empty => BodyView::Empty,
            Body::Error(error) => BodyView::Error(*error),
        }
    }
}

/// The mathematical value of a [`Response`].
pub struct ResponseView {
    pub status: int,
    pub body: BodyView,
}

/// An answer to a client: always a status and a body.
#[derive(Debug, PartialEq, Eq)]
pub struct Response {
    pub status: u16,
    pub body: Body,
}

impl View for Response {
    type V = ResponseView;

    open spec fn view(&self) -> ResponseView {
        ResponseView { status: self.status as int, body: self.body@ }
    }
}

/// The answer to a failed request: the status of the error, and the error.
pub open spec fn failed(error: BragError) -> ResponseView {
    ResponseView { status: error.status(), body: BodyView::Error(error) }
}

/// The answer to a listing: 200 with the entries, also when there are none.
/// A failure is answered with its status and an empty list.
pub open spec fn entries_answer(listed: Result<Seq<EntryView>, BragError>) -> ResponseView {
    match listed {
        Ok(entries) => ResponseView { status: 200, body: BodyView::Entries(entries) },
        Err(error) => ResponseView {
            status: error.status(),
            body: BodyView::Entries(Seq::empty()),
        },
    }
}

/// The answer to a creation: 201 with the new entry, or the failure.
pub open spec fn created_answer(created: Result<EntryView, BragError>) -> ResponseView {
    match created {
        Ok(entry) => ResponseView { status: 201, body: BodyView::Entry(entry) },
        Err(error) => failed(error),
    }
}

/// The answer to a deletion: 200 where a row was removed, 404 where no row
/// had the id, or the failure.
pub open spec fn deleted_answer(deleted: Result<Outcome, BragError>) -> ResponseView {
    match deleted {
        Ok(Outcome::Deleted) => ResponseView { status: 200, body: BodyView::Empty },
        Ok(Outcome::NotFound) => failed(BragError::NotFound),
        Err(error) => failed(error),
    }
}

/// Answers a request that failed with `error`.
pub fn failure(error: BragError) -> (response: Response)
    ensures
        response@ == failed(error),
{
    Response { status: error.status_code(), body: Body::Error(error) }
}

/// Answers a request that could not be decoded: whatever was wrong with it,
/// it failed validation, and the store is not called.
pub fn rejected(why: Rejection) -> (response: Response)
    ensures
        response@ == failed(BragError::ValidationFailed),
        response@.status == 400,
{
    match why {
        Rejection::MalformedBody => failure(BragError::ValidationFailed),
        Rejection::MalformedId => failure(BragError::ValidationFailed),
    }
}

/// Answers `GET /entries` from the result of listing.
pub fn get_entries(listed: Result<Vec<Entry>, BragError>) -> (response: Response)
    ensures
        response@ == entries_answer(
            match listed {
                Ok(entries) => Ok(entry_views(entries@)),
                Err(error) => Err(error),
            },
        ),
{
    match listed {
        Ok(entries) => Response { status: OK, body: Body::Entries(entries) },
        Err(error) => {
            let none: Vec<Entry> = Vec::new();
            assert(entry_views(none@) =~= Seq::<EntryView>::empty());
            Response { status: error.status_code(), body: Body::Entries(none) }
        },
    }
}

/// Answers `POST /entries` from the result of inserting.
pub fn create_entry(created: Result<Entry, BragError>) -> (response: Response)
    ensures
        response@ == created_answer(
            match created {
                Ok(entry) => Ok(entry@),
                Err(error) => Err(error),
            },
        ),
{
    match created {
        Ok(entry) => Response { status: CREATED, body: Body::Entry(entry) },
        Err(error) => failure(error),
    }
}

/// Answers `DELETE /entries/{id}` from the result of deleting.
pub fn delete_entry(deleted: Result<Outcome, BragError>) -> (response: Response)
    ensures
        response@ == deleted_answer(deleted),
{
    match deleted {
        Ok(Outcome::Deleted) => Response { status: OK, body: Body::Empty },
        Ok(Outcome::NotFound) => failure(BragError::NotFound),
        Err(error) => failure(error),
    }
}

} // verus!
