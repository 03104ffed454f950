use bragdoc::api::{Body, Response};
use bragdoc::errors::BragError;
use bragdoc::models::{CreateEntry, Entry};
use bragdoc::service::{handle, serve, Request};
use bragdoc::table::Table;

fn create(description: &str, link: Option<&str>) -> Request {
    Request::Create(CreateEntry {
        description: description.to_string(),
        link: link.map(|text| text.to_string()),
    })
}

fn listed(table: &mut Table) -> Vec<Entry> {
    match handle(table, Request::List, 0) {
        Response { status: 200, body: Body::Entries(entries) } => entries,
        other => panic!("listing answered {:?}", other),
    }
}

#[test]
fn create_list_delete_list() {
    let mut table = Table::new();
    let shipped = Entry {
        id: 1,
        description: "Shipped v1".to_string(),
        link: Some("https://x/y".to_string()),
        date: 1_700_000_000,
    };

    let created = handle(&mut table, create("Shipped v1", Some("https://x/y")), 1_700_000_000);
    assert_eq!(created, Response { status: 201, body: Body::Entry(shipped.clone()) });

    let listing = handle(&mut table, Request::List, 1_700_000_001);
    assert_eq!(listing, Response { status: 200, body: Body::Entries(vec![shipped]) });

    let deleted = handle(&mut table, Request::Delete(1), 1_700_000_002);
    assert_eq!(deleted, Response { status: 200, body: Body::Empty });

    let listing = handle(&mut table, Request::List, 1_700_000_003);
    assert_eq!(listing, Response { status: 200, body: Body::Entries(vec![]) });
}

#[test]
fn empty_description_is_refused_and_creates_no_row() {
    let mut table = Table::new();
    let refused = handle(&mut table, create("", None), 5);
    assert_eq!(
        refused,
        Response { status: 400, body: Body::Error(BragError::ValidationFailed) }
    );
    assert_eq!(listed(&mut table), vec![]);
}

#[test]
fn empty_description_leaves_existing_rows() {
    let mut table = Table::new();
    handle(&mut table, create("first", None), 10);
    let before = listed(&mut table);
    let refused = handle(&mut table, create("", Some("https://x/y")), 11);
    assert_eq!(refused.status, 400);
    assert_eq!(listed(&mut table), before);
    assert_eq!(before.len(), 1);
}

#[test]
fn delete_of_id_never_created_is_not_found() {
    let mut table = Table::new();
    handle(&mut table, create("kept", None), 7);
    let before = listed(&mut table);
    let missing = handle(&mut table, Request::Delete(9999), 8);
    assert_eq!(missing, Response { status: 404, body: Body::Error(BragError::NotFound) });
    assert_eq!(listed(&mut table), before);
}

#[test]
fn listing_an_empty_table_gives_an_empty_list() {
    let mut table = Table::new();
    let listing = handle(&mut table, Request::List, 0);
    assert_eq!(listing, Response { status: 200, body: Body::Entries(vec![]) });
}

#[test]
fn created_entry_is_listed_with_its_input() {
    let mut table = Table::new();
    handle(&mut table, create("one", Some("a")), 100);
    let created = handle(&mut table, create("two", None), 200);
    let expected = Entry { id: 2, description: "two".to_string(), link: None, date: 200 };
    assert_eq!(created, Response { status: 201, body: Body::Entry(expected.clone()) });
    let entries = listed(&mut table);
    assert_eq!(entries.len(), 2);
    assert!(entries.contains(&expected));
    assert_eq!(entries.iter().filter(|entry| entry.id == 2).count(), 1);
}

#[test]
fn whitespace_description_is_not_empty() {
    let mut table = Table::new();
    let created = handle(&mut table, create(" ", None), 1);
    assert_eq!(created.status, 201);
}

#[test]
fn deleting_twice_is_not_found_the_second_time() {
    let mut table = Table::new();
    handle(&mut table, create("one", None), 1);
    handle(&mut table, create("two", None), 2);
    assert_eq!(handle(&mut table, Request::Delete(2), 3).status, 200);
    let entries = listed(&mut table);
    assert!(entries.iter().all(|entry| entry.id != 2));
    assert_eq!(entries.len(), 1);
    let again = handle(&mut table, Request::Delete(2), 4);
    assert_eq!(again, Response { status: 404, body: Body::Error(BragError::NotFound) });
    assert_eq!(listed(&mut table), entries);
}

#[test]
fn deleting_removes_only_the_row_with_the_id() {
    let mut table = Table::new();
    handle(&mut table, create("one", None), 1);
    handle(&mut table, create("two", None), 2);
    handle(&mut table, create("three", None), 3);
    assert_eq!(handle(&mut table, Request::Delete(2), 4).status, 200);
    let ids: Vec<i64> = listed(&mut table).iter().map(|entry| entry.id).collect();
    assert_eq!(ids, vec![1, 3]);
}

#[test]
fn ids_are_not_assigned_again_after_a_delete() {
    let mut table = Table::new();
    handle(&mut table, create("one", None), 1);
    handle(&mut table, Request::Delete(1), 2);
    let created = handle(&mut table, create("two", None), 3);
    match created.body {
        Body::Entry(entry) => assert_eq!(entry.id, 2),
        other => panic!("creation answered {:?}", other),
    }
}

#[test]
fn negative_and_zero_ids_are_not_found() {
    let mut table = Table::new();
    handle(&mut table, create("one", None), 1);
    assert_eq!(handle(&mut table, Request::Delete(0), 2).status, 404);
    assert_eq!(handle(&mut table, Request::Delete(-1), 2).status, 404);
    assert_eq!(handle(&mut table, Request::Delete(i64::MIN), 2).status, 404);
    assert_eq!(listed(&mut table).len(), 1);
}

#[test]
fn serve_dates_the_entry_with_the_current_time() {
    let mut table = Table::new();
    let before = chrono::Utc::now().timestamp();
    let created = serve(&mut table, create("now", None));
    let after = chrono::Utc::now().timestamp();
    assert_eq!(created.status, 201);
    match created.body {
        Body::Entry(entry) => {
            assert!(before <= entry.date && entry.date <= after);
            assert!(after - before <= 5);
            assert_eq!(entry.id, 1);
            assert_eq!(entry.description, "now");
            assert_eq!(entry.link, None);
        }
        other => panic!("creation answered {:?}", other),
    }
}

#[test]
fn serve_lists_and_deletes() {
    let mut table = Table::new();
    serve(&mut table, create("one", None));
    let listing = serve(&mut table, Request::List);
    assert_eq!(listing.status, 200);
    match listing.body {
        Body::Entries(entries) => assert_eq!(entries.len(), 1),
        other => panic!("listing answered {:?}", other),
    }
    assert_eq!(serve(&mut table, Request::Delete(1)), Response { status: 200, body: Body::Empty });
    assert_eq!(serve(&mut table, Request::Delete(1)).status, 404);
    assert_eq!(listed(&mut table), vec![]);
}

#[test]
fn serve_refuses_an_empty_description() {
    let mut table = Table::new();
    let refused = serve(&mut table, create("", None));
    assert_eq!(
        refused,
        Response { status: 400, body: Body::Error(BragError::ValidationFailed) }
    );
    assert_eq!(listed(&mut table), vec![]);
}
