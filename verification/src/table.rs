//! The `entries` table as a value: what each of the repository's statements
//! does to the rows, and what the store answers.
//!
//! [`TableView`] is the model that the service is reasoned about with.
//! [`Table`] keeps such a table in memory and stands in for the durable store
//! where the service is exercised without one; it is no place to keep
//! entries, since it ends with the process.

use vstd::prelude::*;
use crate::errors::StoreFailure;
use crate::models::{clone_entries, clone_text, entry_views, Entry, EntryView};
use crate::repository::{NewEntry, NewEntryView};

verus! {

/// The test that a row passes unless it has this id.
pub open spec fn other_than(id: int) -> spec_fn(EntryView) -> bool {
    |row: EntryView| row.id != id
}

/// The rows of the table in the order in which the store lists them, and the
/// largest id that was ever assigned (0 before the first insert).
pub struct TableView {
    pub rows: Seq<EntryView>,
    pub last_id: int,
}

impl TableView {
    /// The table before anything was inserted.
    pub open spec fn empty() -> TableView {
        TableView { rows: Seq::empty(), last_id: 0 }
    }

    /// Ids are assigned in increasing order starting at 1 and never again:
    /// the rows stand in the order of their ids, none above `last_id`. Every
    /// row has a description that is not empty.
    pub open spec fn wf(self) -> bool {
        &&& 0 <= self.last_id <= i64::MAX
        &&& forall|k: int| 0 <= k < self.rows.len() ==> (#[trigger] self.rows[k]).description.len() > 0
        &&& forall|k: int| 0 <= k < self.rows.len() ==> 1 <= (#[trigger] self.rows[k]).id <= self.last_id
        &&& forall|j: int, k: int|
            0 <= j < k < self.rows.len() ==> (#[trigger] self.rows[j]).id < (#[trigger] self.rows[k]).id
    }

    /// Some row has this id.
    pub open spec fn has_id(self, id: int) -> bool {
        exists|k: int| 0 <= k < self.rows.len() && (#[trigger] self.rows[k]).id == id
    }

    /// No id is left to assign; an insert fails.
    pub open spec fn full(self) -> bool {
        self.last_id >= i64::MAX
    }

    /// The id that the next insert assigns.
    pub open spec fn next_id(self) -> int {
        self.last_id + 1
    }

    /// The table after `row` was inserted under the next id.
    pub open spec fn inserted(self, row: NewEntryView) -> TableView {
        TableView { rows: self.rows.push(row.with_id(self.next_id())), last_id: self.next_id() }
    }

    /// The table after every row with this id was deleted.
    pub open spec fn removed(self, id: int) -> TableView {
        TableView { rows: self.rows.filter(other_than(id)), last_id: self.last_id }
    }
}

/// Filtering keeps a sequence as it is where every item passes.
pub proof fn lemma_filter_keeps_all<A>(items: Seq<A>, keep: spec_fn(A) -> bool)
    requires
        forall|k: int| 0 <= k < items.len() ==> keep(#[trigger] items[k]),
    ensures
        items.filter(keep) == items,
    decreases items.len(),
{
    reveal(Seq::filter);
    if items.len() > 0 {
        lemma_filter_keeps_all(items.drop_last(), keep);
        assert(items.drop_last().push(items.last()) =~= items);
    }
}

/// Filtering drops the one item that does not pass.
pub proof fn lemma_filter_drops_one<A>(items: Seq<A>, keep: spec_fn(A) -> bool, at: int)
    requires
        0 <= at < items.len(),
        !keep(items[at]),
        forall|k: int| 0 <= k < items.len() && k != at ==> keep(#[trigger] items[k]),
    ensures
        items.filter(keep) == items.remove(at),
    decreases items.len(),
{
    reveal(Seq::filter);
    let front = items.drop_last();
    if at == items.len() - 1 {
        lemma_filter_keeps_all(front, keep);
        assert(items.remove(at) =~= front);
    } else {
        lemma_filter_drops_one(front, keep, at);
        assert(front.remove(at).push(items.last()) =~= items.remove(at));
    }
}

/// A table held in memory.
#[derive(Debug)]
pub struct Table {
    rows: Vec<Entry>,
    last_id: i64,
}

impl View for Table {
    type V = TableView;

    closed spec fn view(&self) -> TableView {
        TableView { rows: entry_views(self.rows@), last_id: self.last_id as int }
    }
}

impl Table {
    /// Every table that exists is well formed.
    #[verifier::type_invariant]
    pub open spec fn valid(self) -> bool {
        self@.wf()
    }

    /// An empty table.
    pub fn new() -> (table: Table)
        ensures
            table@ == TableView::empty(),
            table@.wf(),
    {
        let table = Table { rows: Vec::new(), last_id: 0 };
        assert(table@.rows =~= Seq::<EntryView>::empty());
        table
    }

    /// Answers the listing statement: every row, in the table's order. A
    /// table in memory never fails to answer.
    pub fn select_all(&self) -> (fetched: Result<Vec<Entry>, StoreFailure>)
        ensures
            self@.wf(),
            fetched is Ok,
            entry_views(fetched->Ok_0@) == self@.rows,
    {
        proof {
            use_type_invariant(self);
        }
        Ok(clone_entries(&self.rows))
    }

    /// Answers the insert statement: appends `row` under the next id and
    /// gives that id, or fails and changes nothing where no id is left.
    pub fn insert(&mut self, row: &NewEntry) -> (inserted: Result<i64, StoreFailure>)
        ensures
            old(self)@.wf(),
            final(self)@.wf(),
            old(self)@.full() ==> inserted is Err && final(self)@ == old(self)@,
            !old(self)@.full() ==> inserted == Ok::<i64, StoreFailure>(old(self)@.next_id() as i64)
                && final(self)@ == old(self)@.inserted(row@),
    {
        proof {
            use_type_invariant(&*self);
        }
        if self.last_id == i64::MAX {
            return Err(StoreFailure);
        }
        let id: i64 = self.last_id + 1;
        let entry = Entry {
            id,
            description: row.description().clone(),
            link: clone_text(row.link()),
            date: row.date(),
        };
        assert(entry@ == row@.with_id(id as int));
        let mut rows: Vec<Entry> = Vec::new();
        assert(entry_views(rows@) =~= Seq::<EntryView>::empty());
        core::mem::swap(&mut self.rows, &mut rows);
        let ghost before = rows@;
        rows.push(entry);
        assert(entry_views(rows@) =~= entry_views(before).push(entry@));
        self.last_id = id;
        self.rows = rows;
        Ok(id)
    }

    /// Answers the delete statement: removes the row with this id, if there
    /// is one, and gives the number of rows removed.
    #[verifier::loop_isolation(false)]
    pub fn delete(&mut self, id: i64) -> (executed: Result<u64, StoreFailure>)
        ensures
            old(self)@.wf(),
            final(self)@.wf(),
            final(self)@ == old(self)@.removed(id as int),
            executed == Ok::<u64, StoreFailure>(
                if old(self)@.has_id(id as int) {
                    1u64
                } else {
                    0u64
                },
            ),
    {
        proof {
            use_type_invariant(&*self);
        }
        let ghost before = self@;
        let mut at: usize = 0;
        while at < self.rows.len()
            invariant
                at <= self.rows.len(),
                self@ == before,
                before.wf(),
                forall|k: int| 0 <= k < at ==> (#[trigger] before.rows[k]).id != id,
            decreases self.rows.len() - at,
        {
            if self.rows[at].id == id {
                proof {
                    assert(before.rows[at as int].id == id);
                    lemma_filter_drops_one(before.rows, other_than(id as int), at as int);
                    assert(entry_views(self.rows@.remove(at as int)) =~= before.rows.remove(
                        at as int,
                    ));
                }
                let mut rows: Vec<Entry> = Vec::new();
                assert(entry_views(rows@) =~= Seq::<EntryView>::empty());
                core::mem::swap(&mut self.rows, &mut rows);
                rows.remove(at);
                self.rows = rows;
                return Ok(1);
            }
            at += 1;
        }
        proof {
            lemma_filter_keeps_all(before.rows, other_than(id as int));
        }
        Ok(0)
    }
}

} // verus!
