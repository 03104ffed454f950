use bragdoc::errors::{BragError, Outcome, StoreFailure};
use bragdoc::models::{clone_entries, clone_text, CreateEntry, Entry};
use bragdoc::repository::{
    delete_by_id, insert, list_all, prepare, stamp, DELETE_BY_ID, INSERT, SELECT_ALL,
};
use bragdoc::table::Table;

fn payload(description: &str, link: Option<&str>) -> CreateEntry {
    CreateEntry { description: description.to_string(), link: link.map(|text| text.to_string()) }
}

#[test]
fn prepare_keeps_description_link_and_date() {
    let row = prepare(payload("Shipped v1", Some("https://x/y")), 42).unwrap();
    assert_eq!(row.description(), "Shipped v1");
    assert_eq!(row.link(), &Some("https://x/y".to_string()));
    assert_eq!(row.date(), 42);
}

#[test]
fn prepare_refuses_an_empty_description() {
    assert_eq!(prepare(payload("", Some("https://x/y")), 42).err(), Some(BragError::ValidationFailed));
    assert_eq!(prepare(payload("", None), i64::MIN).err(), Some(BragError::ValidationFailed));
}

#[test]
fn prepare_takes_any_date() {
    assert_eq!(prepare(payload("a", None), i64::MIN).unwrap().date(), i64::MIN);
    assert_eq!(prepare(payload("a", None), i64::MAX).unwrap().date(), i64::MAX);
    assert_eq!(prepare(payload("a", None), 0).unwrap().link(), &None);
}

#[test]
fn stamp_reads_the_clock() {
    let before = chrono::Utc::now().timestamp();
    let row = stamp(payload("dated", Some("l"))).unwrap();
    let after = chrono::Utc::now().timestamp();
    assert!(before <= row.date() && row.date() <= after);
    assert!(before > 1_600_000_000);
    assert_eq!(row.description(), "dated");
    assert_eq!(row.link(), &Some("l".to_string()));
}

#[test]
fn stamp_refuses_an_empty_description() {
    assert_eq!(stamp(payload("", None)).err(), Some(BragError::ValidationFailed));
}

#[test]
fn list_all_reports_a_store_failure() {
    assert_eq!(list_all(Err(StoreFailure)), Err(BragError::QueryFailed));
}

#[test]
fn list_all_keeps_rows_and_order() {
    let rows = vec![
        Entry { id: 3, description: "c".to_string(), link: None, date: 30 },
        Entry { id: 1, description: "a".to_string(), link: Some("x".to_string()), date: 10 },
    ];
    assert_eq!(list_all(Ok(clone_entries(&rows))), Ok(rows));
    assert_eq!(list_all(Ok(vec![])), Ok(vec![]));
}

#[test]
fn insert_builds_the_entry_under_the_assigned_id() {
    let row = prepare(payload("Shipped v1", Some("https://x/y")), 1_700_000_000).unwrap();
    assert_eq!(
        insert(row, Ok(17)),
        Ok(Entry {
            id: 17,
            description: "Shipped v1".to_string(),
            link: Some("https://x/y".to_string()),
            date: 1_700_000_000,
        })
    );
}

#[test]
fn insert_reports_a_store_failure() {
    let row = prepare(payload("Shipped v1", None), 1).unwrap();
    assert_eq!(insert(row, Err(StoreFailure)), Err(BragError::InsertFailed));
}

#[test]
fn delete_by_id_reads_the_number_of_rows() {
    assert_eq!(delete_by_id(Ok(0)), Ok(Outcome::NotFound));
    assert_eq!(delete_by_id(Ok(1)), Ok(Outcome::Deleted));
    assert_eq!(delete_by_id(Ok(u64::MAX)), Ok(Outcome::Deleted));
    assert_eq!(delete_by_id(Err(StoreFailure)), Err(BragError::DeleteFailed));
}

#[test]
fn statements_name_the_entries_table() {
    assert_eq!(SELECT_ALL, "SELECT id, description, link, date FROM entries");
    assert_eq!(INSERT, "INSERT INTO entries (description, link, date) VALUES (?, ?, ?)");
    assert_eq!(DELETE_BY_ID, "DELETE FROM entries WHERE id = ?");
}

#[test]
fn table_answers_the_three_statements() {
    let mut table = Table::new();
    assert_eq!(table.select_all(), Ok(vec![]));
    let first = prepare(payload("one", None), 11).unwrap();
    let second = prepare(payload("two", Some("l")), 22).unwrap();
    assert_eq!(table.insert(&first), Ok(1));
    assert_eq!(table.insert(&second), Ok(2));
    assert_eq!(table.delete(5), Ok(0));
    assert_eq!(table.delete(1), Ok(1));
    assert_eq!(table.delete(1), Ok(0));
    assert_eq!(
        table.select_all(),
        Ok(vec![Entry { id: 2, description: "two".to_string(), link: Some("l".to_string()), date: 22 }])
    );
    assert_eq!(table.insert(&first), Ok(3));
}

#[test]
fn copies_equal_what_they_copy() {
    let entry = Entry { id: 9, description: "d".to_string(), link: Some("l".to_string()), date: 1 };
    assert_eq!(entry.clone(), entry);
    let request = payload("d", None);
    assert_eq!(request.clone(), request);
    assert_eq!(clone_text(&Some("l".to_string())), Some("l".to_string()));
    assert_eq!(clone_text(&None), None);
    assert_eq!(clone_entries(&vec![entry.clone(), entry.clone()]), vec![entry.clone(), entry]);
}
