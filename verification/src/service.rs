//! The whole service as one step: a table and a request give the table
//! afterwards and the answer.
//!
//! [`step`] is the reference for what the service does. [`handle`] runs a
//! request against a [`Table`] through the same repository and API functions
//! that serve the durable store, and is proved to do what [`step`] says.

use vstd::prelude::*;
use crate::api::{
    create_entry, created_answer, delete_entry, deleted_answer, entries_answer, failed, failure,
    get_entries, Response, ResponseView,
};
use crate::errors::{BragError, Outcome};
use crate::models::{CreateEntry, CreateEntryView};
use crate::repository::{delete_by_id, insert, list_all, prepare, prepared, stamp, NewEntry};
use crate::table::{Table, TableView};

verus! {

/// The mathematical value of a [`Request`].
pub enum RequestView {
    List,
    Create(CreateEntryView),
    Delete(int),
}

/// A request that has been decoded.
#[derive(Debug, PartialEq, Eq)]
pub enum Request {
    /// `GET /entries`
    List,
    /// `POST /entries` with its body.
    Create(CreateEntry),
    /// `DELETE /entries/{id}` with its id.
    Delete(i64),
}

impl View for Request {
    type V = RequestView;

    open spec fn view(&self) -> RequestView {
        match self {
            Request::List => RequestView::List,
            Request::Create(payload) => RequestView::Create(payload@),
            Request::Delete(id) => RequestView::Delete(*id as int),
        }
    }
}

/// What a request does to the table and how it is answered, at the server
/// time `now`.
///
/// Listing changes nothing. Creating is refused before the table is touched
/// where the description is empty; otherwise the row is appended under the
/// next id with `now` as its date. Deleting removes the row with the id and
/// reports whether there was one.
pub open spec fn step(table: TableView, request: RequestView, now: int) -> (
    TableView,
    ResponseView,
) {
    match request {
        RequestView::List => (table, entries_answer(Ok(table.rows))),
        RequestView::Create(payload) => match prepared(payload, now) {
            Err(error) => (table, failed(error)),
            Ok(row) => if table.full() {
                (table, failed(BragError::InsertFailed))
            } else {
                (table.inserted(row), created_answer(Ok(row.with_id(table.next_id()))))
            },
        },
        RequestView::Delete(id) => (
            table.removed(id),
            deleted_answer(
                Ok(
                    if table.has_id(id) {
                        Outcome::Deleted
                    } else {
                        Outcome::NotFound
                    },
                ),
            ),
        ),
    }
}

/// Inserts a validated row into the table and answers the creation.
fn store(table: &mut Table, row: NewEntry) -> (response: Response)
    ensures
        old(table)@.wf(),
        final(table)@.wf(),
        (final(table)@, response@) == (if old(table)@.full() {
            (old(table)@, failed(BragError::InsertFailed))
        } else {
            (
                old(table)@.inserted(row@),
                created_answer(Ok(row@.with_id(old(table)@.next_id()))),
            )
        }),
{
    let inserted = table.insert(&row);
    create_entry(insert(row, inserted))
}

/// Serves one request against a table in memory, at the server time `now`.
pub fn handle(table: &mut Table, request: Request, now: i64) -> (response: Response)
    ensures
        old(table)@.wf(),
        final(table)@.wf(),
        (final(table)@, response@) == step(old(table)@, request@, now as int),
{
    proof {
        use_type_invariant(&*table);
    }
    match request {
        Request::List => get_entries(list_all(table.select_all())),
        Request::Create(payload) => match prepare(payload, now) {
            Err(error) => failure(error),
            Ok(row) => store(table, row),
        },
        Request::Delete(id) => delete_entry(delete_by_id(table.delete(id))),
    }
}

/// Serves one request against a table in memory at the server's current
/// time. The clock is read only for a creation that passed validation.
/// Whatever it reads, the request is served as [`step`] says for that
/// reading; of the reading itself nothing is known here. Reading the clock
/// fails only where it stands outside the years that chrono can represent.
pub fn serve(table: &mut Table, request: Request) -> (response: Response)
    ensures
        old(table)@.wf(),
        final(table)@.wf(),
        exists|now: i64| (final(table)@, response@) == #[trigger] step(
            old(table)@,
            request@,
            now as int,
        ),
{
    proof {
        use_type_invariant(&*table);
    }
    let ghost before = table@;
    let ghost asked = request@;
    match request {
        Request::Create(payload) => match stamp(payload) {
            Err(error) => {
                let response = failure(error);
                assert((table@, response@) == step(before, asked, 0i64 as int));
                response
            },
            Ok(row) => {
                let date = row.date();
                let response = store(table, row);
                assert((table@, response@) == step(before, asked, date as int));
                response
            },
        },
        other => {
            let response = handle(table, other, 0);
            assert((table@, response@) == step(before, asked, 0i64 as int));
            response
        },
    }
}

} // verus!
