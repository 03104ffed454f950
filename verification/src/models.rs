//! The data model: the persisted entry and the request that creates one.

use vstd::prelude::*;

verus! {

/// What an optional text holds, as a sequence of characters.
pub open spec fn text_of(value: Option<String>) -> Option<Seq<char>> {
    match value {
        Some(text) => Some(text@),
        None => None,
    }
}

/// The mathematical value of an [`Entry`].
pub struct EntryView {
    pub id: int,
    pub description: Seq<char>,
    pub link: Option<Seq<char>>,
    pub date: int,
}

/// A recorded accomplishment. `id` and `date` are assigned on the server side
/// when the entry is inserted; an entry never changes afterwards.
#[derive(Debug, PartialEq, Eq)]
pub struct Entry {
    pub id: i64,
    pub description: String,
    pub link: Option<String>,
    /// Unix timestamp in seconds.
    pub date: i64,
}

impl View for Entry {
    type V = EntryView;

    open spec fn view(&self) -> EntryView {
        EntryView {
            id: self.id as int,
            description: self.description@,
            link: text_of(self.link),
            date: self.date as int,
        }
    }
}

impl Clone for Entry {
    fn clone(&self) -> (copy: Entry)
        ensures
            copy@ == self@,
    {
        Entry {
            id: self.id,
            description: self.description.clone(),
            link: clone_text(&self.link),
            date: self.date,
        }
    }
}

/// The mathematical value of a [`CreateEntry`].
pub struct CreateEntryView {
    pub description: Seq<char>,
    pub link: Option<Seq<char>>,
}

/// What a client sends to create an entry. It carries no `id` and no `date`:
/// both are assigned on the server side.
#[derive(Debug, PartialEq, Eq)]
pub struct CreateEntry {
    pub description: String,
    pub link: Option<String>,
}

impl View for CreateEntry {
    type V = CreateEntryView;

    open spec fn view(&self) -> CreateEntryView {
        CreateEntryView { description: self.description@, link: text_of(self.link) }
    }
}

impl Clone for CreateEntry {
    fn clone(&self) -> (copy: CreateEntry)
        ensures
            copy@ == self@,
    {
        CreateEntry { description: self.description.clone(), link: clone_text(&self.link) }
    }
}

/// The views of a sequence of entries, in the same order.
pub open spec fn entry_views(entries: Seq<Entry>) -> Seq<EntryView> {
    entries.map_values(|entry: Entry| entry@)
}

/// Copies an optional text.
pub fn clone_text(value: &Option<String>) -> (copy: Option<String>)
    ensures
        copy == *value,
{
    match value {
        Some(text) => Some(text.clone()),
        None => None,
    }
}

/// Copies a list of entries, one by one.
pub fn clone_entries(entries: &Vec<Entry>) -> (copy: Vec<Entry>)
    ensures
        entry_views(copy@) == entry_views(entries@),
{
    let mut copy: Vec<Entry> = Vec::new();
    let mut at: usize = 0;
    while at < entries.len()
        invariant
            at <= entries.len(),
            copy.len() == at,
            forall|k: int| 0 <= k < at ==> copy[k]@ == entries[k]@,
        decreases entries.len() - at,
    {
        copy.push(entries[at].clone());
        at += 1;
    }
    assert(entry_views(copy@) =~= entry_views(entries@));
    copy
}

} // verus!
