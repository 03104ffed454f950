//! What holds of the service for every table and every request, proved of
//! [`step`].

use vstd::prelude::*;
use crate::api::{failed, BodyView, ResponseView};
use crate::errors::BragError;
use crate::models::{CreateEntryView, EntryView};
use crate::service::{step, RequestView};
use crate::table::{lemma_filter_drops_one, lemma_filter_keeps_all, other_than, TableView};

verus! {

/// The table after a sequence of requests, each with the server time at
/// which it arrived.
pub open spec fn run(table: TableView, requests: Seq<(RequestView, int)>) -> TableView
    decreases requests.len(),
{
    if requests.len() == 0 {
        table
    } else {
        step(run(table, requests.drop_last()), requests.last().0, requests.last().1).0
    }
}

/// The answer to the request at `index` of a sequence of requests.
pub open spec fn answer_at(
    table: TableView,
    requests: Seq<(RequestView, int)>,
    index: int,
) -> ResponseView {
    step(run(table, requests.take(index)), requests[index].0, requests[index].1).1
}

/// Every request leaves the table well formed, so that no row ever has an
/// empty description, and no request lowers the largest id assigned: an id
/// is never given out twice.
pub proof fn law_step_keeps_order(table: TableView, request: RequestView, now: int)
    requires
        table.wf(),
    ensures
        step(table, request, now).0.wf(),
        step(table, request, now).0.last_id >= table.last_id,
{
    match request {
        RequestView::Delete(id) => {
            if table.has_id(id) {
                let at = choose|k: int|
                    0 <= k < table.rows.len() && (#[trigger] table.rows[k]).id == id;
                lemma_filter_drops_one(table.rows, other_than(id), at);
            } else {
                lemma_filter_keeps_all(table.rows, other_than(id));
            }
        },
        _ => {},
    }
}

/// Listing an empty table is answered with 200 and an empty list, not with
/// an error.
pub proof fn law_empty_table_lists_nothing(now: int)
    ensures
        step(TableView::empty(), RequestView::List, now) == (
            TableView::empty(),
            ResponseView { status: 200, body: BodyView::Entries(Seq::empty()) },
        ),
{
}

/// Listing changes nothing and is answered with 200 and the rows.
pub proof fn law_listing_reads_only(table: TableView, now: int)
    ensures
        step(table, RequestView::List, now) == (
            table,
            ResponseView { status: 200, body: BodyView::Entries(table.rows) },
        ),
{
}

/// A request with a non-empty description creates an entry that the next
/// listing includes: with the request's description and link, the server
/// time as its date, and an id above every id assigned before, which no
/// other row has.
pub proof fn law_created_entry_is_listed(
    table: TableView,
    payload: CreateEntryView,
    now: int,
    later: int,
)
    requires
        table.wf(),
        !table.full(),
        payload.description.len() > 0,
    ensures
        ({
            let (after, created) = step(table, RequestView::Create(payload), now);
            let (listed, listing) = step(after, RequestView::List, later);
            let entry = EntryView {
                id: table.last_id + 1,
                description: payload.description,
                link: payload.link,
                date: now,
            };
            &&& created == ResponseView { status: 201, body: BodyView::Entry(entry) }
            &&& !table.has_id(entry.id)
            &&& listed == after
            &&& listing.status == 200
            &&& listing.body == BodyView::Entries(after.rows)
            &&& after.rows.contains(entry)
            &&& after.rows.len() == table.rows.len() + 1
            &&& forall|k: int|
                0 <= k < after.rows.len() && (#[trigger] after.rows[k]).id == entry.id
                    ==> after.rows[k] == entry
        }),
{
    let after = step(table, RequestView::Create(payload), now).0;
    let entry = after.rows.last();
    assert(after.rows[table.rows.len() as int] == entry);
}

/// A request with an empty description is answered with 400 and creates no
/// row: the table, and so every later listing, is as before.
pub proof fn law_empty_description_creates_nothing(
    table: TableView,
    payload: CreateEntryView,
    now: int,
)
    requires
        payload.description.len() == 0,
    ensures
        step(table, RequestView::Create(payload), now) == (
            table,
            ResponseView { status: 400, body: BodyView::Error(BragError::ValidationFailed) },
        ),
{
}

/// Deleting an id that some row has is answered with 200 and removes that
/// row and no other.
pub proof fn law_delete_removes_the_row(table: TableView, id: int, now: int)
    requires
        table.wf(),
        table.has_id(id),
    ensures
        ({
            let (after, deleted) = step(table, RequestView::Delete(id), now);
            &&& deleted == ResponseView { status: 200, body: BodyView::Empty }
            &&& !after.has_id(id)
            &&& after.rows.len() == table.rows.len() - 1
            &&& forall|row: EntryView| #[trigger]
                after.rows.contains(row) <==> table.rows.contains(row) && row.id != id
        }),
{
    let after = step(table, RequestView::Delete(id), now).0;
    let keep = other_than(id);
    let at = choose|k: int| 0 <= k < table.rows.len() && (#[trigger] table.rows[k]).id == id;
    lemma_filter_drops_one(table.rows, keep, at);
    assert(after.rows == table.rows.remove(at));
    assert forall|row: EntryView| #[trigger]
        after.rows.contains(row) <==> table.rows.contains(row) && row.id != id by {
        if after.rows.contains(row) {
            table.rows.lemma_filter_contains_rev(keep, row);
        }
        if table.rows.contains(row) && row.id != id {
            let k = choose|k: int| 0 <= k < table.rows.len() && table.rows[k] == row;
            table.rows.lemma_filter_contains(keep, k);
        }
    }
    assert(!after.has_id(id)) by {
        if after.has_id(id) {
            let k = choose|k: int| 0 <= k < after.rows.len() && (#[trigger] after.rows[k]).id == id;
            assert(after.rows.contains(after.rows[k]));
        }
    }
}

/// Deleting an id that no row has is answered with 404 and changes nothing.
pub proof fn law_delete_of_absent_id(table: TableView, id: int, now: int)
    requires
        !table.has_id(id),
    ensures
        step(table, RequestView::Delete(id), now) == (table, failed(BragError::NotFound)),
        failed(BragError::NotFound).status == 404,
{
    lemma_filter_keeps_all(table.rows, other_than(id));
}

/// Deleting the id of an entry that was just created is answered with 200
/// and leaves the rows as they were before the creation, so no later listing
/// shows the entry. Deleting the same id once more is answered with 404 and
/// changes nothing.
pub proof fn law_created_entry_can_be_deleted(
    table: TableView,
    payload: CreateEntryView,
    now: int,
    later: int,
)
    requires
        table.wf(),
        !table.full(),
        payload.description.len() > 0,
    ensures
        ({
            let id = table.last_id + 1;
            let created = step(table, RequestView::Create(payload), now).0;
            let (after, deleted) = step(created, RequestView::Delete(id), later);
            let listing = step(after, RequestView::List, later).1;
            &&& deleted == ResponseView { status: 200, body: BodyView::Empty }
            &&& after.rows == table.rows
            &&& !after.has_id(id)
            &&& listing.body == BodyView::Entries(table.rows)
            &&& step(after, RequestView::Delete(id), later) == (
                after,
                failed(BragError::NotFound),
            )
        }),
{
    let id = table.last_id + 1;
    let created = step(table, RequestView::Create(payload), now).0;
    let after = TableView { rows: table.rows, last_id: id };
    lemma_fresh_id_is_absent(table, id);
    lemma_insert_then_delete(table.rows, created.rows.last());
    assert(created.removed(id) == after);
    assert(created.has_id(id)) by {
        assert(created.rows[table.rows.len() as int].id == id);
    }
    assert(!after.has_id(id));
    law_delete_of_absent_id(after, id, later);
}

/// No row has an id above the largest id assigned.
proof fn lemma_fresh_id_is_absent(table: TableView, id: int)
    requires
        table.wf(),
        id > table.last_id,
    ensures
        !table.has_id(id),
        forall|k: int| 0 <= k < table.rows.len() ==> (#[trigger] table.rows[k]).id != id,
{
}

/// Appending a row whose id no other row has and deleting by that id gives
/// the rows back.
proof fn lemma_insert_then_delete(rows: Seq<EntryView>, entry: EntryView)
    requires
        forall|k: int| 0 <= k < rows.len() ==> (#[trigger] rows[k]).id != entry.id,
    ensures
        rows.push(entry).filter(other_than(entry.id)) == rows,
{
    let longer = rows.push(entry);
    let at = rows.len() as int;
    assert forall|k: int| 0 <= k < longer.len() && k != at implies other_than(entry.id)(
        #[trigger] longer[k],
    ) by {
        assert(longer[k] == rows[k]);
    }
    lemma_filter_drops_one(longer, other_than(entry.id), at);
    assert(longer.remove(at) =~= rows);
}

/// Over any sequence of requests, the table stays well formed and the
/// largest id assigned never falls.
pub proof fn law_run_keeps_order(table: TableView, requests: Seq<(RequestView, int)>)
    requires
        table.wf(),
    ensures
        run(table, requests).wf(),
        run(table, requests).last_id >= table.last_id,
    decreases requests.len(),
{
    if requests.len() > 0 {
        law_run_keeps_order(table, requests.drop_last());
        law_step_keeps_order(
            run(table, requests.drop_last()),
            requests.last().0,
            requests.last().1,
        );
    }
}

/// Whatever was asked of a table that began empty, every row in it has a
/// description that is not empty.
pub proof fn law_rows_are_described(requests: Seq<(RequestView, int)>)
    ensures
        forall|k: int|
            0 <= k < run(TableView::empty(), requests).rows.len() ==> (#[trigger] run(
                TableView::empty(),
                requests,
            ).rows[k]).description.len() > 0,
{
    law_run_keeps_order(TableView::empty(), requests);
}

/// Over any sequence of requests, the largest id assigned after more
/// requests is at least what it was after fewer.
pub proof fn law_last_id_grows(
    table: TableView,
    requests: Seq<(RequestView, int)>,
    fewer: int,
    more: int,
)
    requires
        table.wf(),
        0 <= fewer <= more <= requests.len(),
    ensures
        run(table, requests.take(fewer)).wf(),
        run(table, requests.take(fewer)).last_id <= run(table, requests.take(more)).last_id,
    decreases more - fewer,
{
    law_run_keeps_order(table, requests.take(fewer));
    if fewer < more {
        law_last_id_grows(table, requests, fewer, more - 1);
        let shorter = requests.take(more - 1);
        let longer = requests.take(more);
        assert(longer.drop_last() =~= shorter);
        law_run_keeps_order(table, shorter);
        law_step_keeps_order(run(table, shorter), longer.last().0, longer.last().1);
    }
}

/// Ids are unique over the whole history: of two entries created in one
/// sequence of requests, the later has the larger id, whatever was deleted
/// in between.
pub proof fn law_created_ids_increase(
    table: TableView,
    requests: Seq<(RequestView, int)>,
    first: int,
    second: int,
)
    requires
        table.wf(),
        0 <= first < second < requests.len(),
        answer_at(table, requests, first).body is Entry,
        answer_at(table, requests, second).body is Entry,
    ensures
        answer_at(table, requests, first).body->Entry_0.id < answer_at(
            table,
            requests,
            second,
        ).body->Entry_0.id,
{
    let before_first = run(table, requests.take(first));
    let after_first = run(table, requests.take(first + 1));
    let before_second = run(table, requests.take(second));
    assert(requests.take(first + 1).drop_last() =~= requests.take(first));
    assert(requests.take(first + 1).last() == requests[first]);
    law_last_id_grows(table, requests, first, first + 1);
    law_last_id_grows(table, requests, first + 1, second);
    assert(answer_at(table, requests, first).body->Entry_0.id == before_first.last_id + 1);
    assert(after_first.last_id == before_first.last_id + 1);
    assert(answer_at(table, requests, second).body->Entry_0.id == before_second.last_id + 1);
}

} // verus!
