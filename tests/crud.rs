use rest_crud::gateway::{step, Report, Step};
use rest_crud::model::{Fields, Resource, ResourceKind};
use rest_crud::response::{respond, Body, Failure, Invalid, Notice, Response, Success, Verb};
use rest_crud::route::Method;
use rest_crud::service::{command, handle, Command};
use rest_crud::table::MemoryTable;
use rest_crud::route::Route;

fn fields(a: &str, b: &str) -> Fields {
    Fields::new(a.to_string(), b.to_string())
}

fn post(id: i64, a: &str, b: &str) -> Resource {
    Resource::new(id, fields(a, b))
}

fn ids(table: &MemoryTable) -> Vec<i64> {
    table.list().iter().map(|r| r.id).collect()
}

#[test]
fn example_scenario_posts() {
    let mut t = MemoryTable::new();
    let k = ResourceKind::Post;
    let r = handle(&mut t, k, Method::Post, b"/posts", Some(fields("A", "B")));
    assert_eq!(r, Response { status: 201, body: Body::One(post(1, "A", "B")) });
    let r = handle(&mut t, k, Method::Get, b"/posts/1", None);
    assert_eq!(r, Response { status: 200, body: Body::One(post(1, "A", "B")) });
    let r = handle(&mut t, k, Method::Put, b"/posts/1", Some(fields("C", "D")));
    assert_eq!(r, Response { status: 200, body: Body::One(post(1, "C", "D")) });
    let r = handle(&mut t, k, Method::Delete, b"/posts/1", None);
    assert_eq!(r, Response { status: 200, body: Body::Notice(Notice::Deleted) });
    let r = handle(&mut t, k, Method::Get, b"/posts/1", None);
    assert_eq!(r, Response { status: 404, body: Body::Notice(Notice::NotFound) });
    let r = handle(&mut t, k, Method::Get, b"/posts/999", None);
    assert_eq!(r.status, 404);
}

#[test]
fn list_of_empty_store_is_empty_and_ok() {
    let mut t = MemoryTable::new();
    let r = handle(&mut t, ResourceKind::User, Method::Get, b"/users", None);
    assert_eq!(r, Response { status: 200, body: Body::Many(vec![]) });
}

#[test]
fn get_after_create_returns_created() {
    let mut t = MemoryTable::new();
    let created = t.create(fields("alice", "alice@example.com")).unwrap();
    assert_eq!(created, post(1, "alice", "alice@example.com"));
    assert_eq!(t.get(created.id), Ok(created));
}

#[test]
fn sequential_creates_listed_ascending() {
    let mut t = MemoryTable::new();
    for i in 0..5 {
        t.create(fields(&format!("t{}", i), "x")).unwrap();
    }
    let all = t.list();
    assert_eq!(all.len(), 5);
    assert_eq!(ids(&t), vec![1, 2, 3, 4, 5]);
    for (i, r) in all.iter().enumerate() {
        assert_eq!(r.fields.first, format!("t{}", i));
    }
}

#[test]
fn update_missing_creates_nothing() {
    let mut t = MemoryTable::new();
    t.create(fields("a", "b")).unwrap();
    assert_eq!(t.update(7, fields("c", "d")), Err(Failure::NotFound));
    assert_eq!(t.list().len(), 1);
    t.delete(1).unwrap();
    assert_eq!(t.update(1, fields("c", "d")), Err(Failure::NotFound));
    assert_eq!(t.list().len(), 0);
}

#[test]
fn delete_twice_is_not_found() {
    let mut t = MemoryTable::new();
    t.create(fields("a", "b")).unwrap();
    assert_eq!(t.delete(1), Ok(()));
    assert_eq!(t.get(1), Err(Failure::NotFound));
    assert_eq!(t.delete(1), Err(Failure::NotFound));
    assert_eq!(t.delete(42), Err(Failure::NotFound));
}

#[test]
fn update_replaces_both_fields() {
    let mut t = MemoryTable::new();
    t.create(fields("old title", "old text")).unwrap();
    let u = t.update(1, fields("new title", "new text")).unwrap();
    assert_eq!(u, post(1, "new title", "new text"));
    assert_eq!(t.get(1), Ok(post(1, "new title", "new text")));
}

#[test]
fn ids_never_reused_after_delete() {
    let mut t = MemoryTable::new();
    t.create(fields("a", "1")).unwrap();
    t.create(fields("b", "2")).unwrap();
    t.delete(2).unwrap();
    let c = t.create(fields("c", "3")).unwrap();
    assert_eq!(c.id, 3);
    assert_eq!(ids(&t), vec![1, 3]);
}

#[test]
fn interleaved_creates_get_distinct_ids() {
    let mut t = MemoryTable::new();
    let mut got: Vec<i64> = Vec::new();
    for round in 0..25 {
        for caller in 0..4 {
            let r = t.create(fields(&format!("{}-{}", caller, round), "x")).unwrap();
            got.push(r.id);
        }
        if round % 5 == 0 {
            t.delete(*got.last().unwrap()).unwrap();
        }
    }
    let mut sorted = got.clone();
    sorted.sort();
    sorted.dedup();
    assert_eq!(sorted.len(), 100);
    assert_eq!(sorted, got);
    assert_eq!(ids(&t).len(), 95);
}

#[test]
fn execute_runs_each_command() {
    let mut t = MemoryTable::new();
    assert_eq!(t.execute(Command::Create(fields("a", "b"))), Ok(Success::One(post(1, "a", "b"))));
    assert_eq!(t.execute(Command::List), Ok(Success::Many(vec![post(1, "a", "b")])));
    assert_eq!(t.execute(Command::Get(2)), Err(Failure::NotFound));
    assert_eq!(t.execute(Command::Delete(1)), Ok(Success::Deleted));
}

#[test]
fn create_without_body_is_bad_request() {
    let mut t = MemoryTable::new();
    let r = handle(&mut t, ResourceKind::Post, Method::Post, b"/posts", None);
    assert_eq!(r, Response { status: 400, body: Body::Notice(Notice::MalformedBody) });
    let r = handle(&mut t, ResourceKind::Post, Method::Put, b"/posts/1", None);
    assert_eq!(r.status, 400);
    assert_eq!(t.list().len(), 0);
}

#[test]
fn bad_id_is_bad_request() {
    let mut t = MemoryTable::new();
    let r = handle(&mut t, ResourceKind::User, Method::Get, b"/users/abc", None);
    assert_eq!(r, Response { status: 400, body: Body::Notice(Notice::BadId) });
}

#[test]
fn unknown_path_is_not_found() {
    let mut t = MemoryTable::new();
    let r = handle(&mut t, ResourceKind::User, Method::Get, b"/posts", None);
    assert_eq!(r.status, 404);
}

#[test]
fn command_needs_body_for_writes() {
    assert_eq!(command(Route::Create, None), Err(Failure::Invalid(Invalid::MalformedBody)));
    assert_eq!(command(Route::Get(3), Some(fields("a", "b"))), Ok(Command::Get(3)));
    assert_eq!(command(Route::Update(2), Some(fields("a", "b"))), Ok(Command::Update(2, fields("a", "b"))));
    assert!(Route::Create.takes_body());
    assert!(!Route::Delete(1).takes_body());
}

#[test]
fn respond_maps_each_outcome() {
    assert_eq!(respond(Verb::Create, Ok(Success::One(post(4, "a", "b")))).status, 201);
    assert_eq!(respond(Verb::Update, Ok(Success::One(post(4, "a", "b")))).status, 200);
    assert_eq!(respond(Verb::List, Ok(Success::Many(vec![]))).status, 200);
    assert_eq!(respond(Verb::Delete, Ok(Success::Deleted)).status, 200);
    assert_eq!(respond(Verb::Get, Err(Failure::NotFound)).status, 404);
    assert_eq!(respond(Verb::Get, Err(Failure::Invalid(Invalid::BadId))).status, 400);
    let r = respond(Verb::Create, Err(Failure::Persistence));
    assert_eq!(r, Response { status: 500, body: Body::Notice(Notice::Internal) });
}

#[test]
fn notice_texts() {
    assert_eq!(Notice::NotFound.text(ResourceKind::User), "User not found");
    assert_eq!(Notice::NotFound.text(ResourceKind::Post), "Post not found");
    assert_eq!(Notice::Deleted.text(ResourceKind::Post), "Post deleted");
    assert_eq!(Notice::Internal.text(ResourceKind::User), "Internal server error");
}

#[test]
fn raw_update_zero_rows_is_not_found() {
    let cmd = Command::Update(5, fields("a", "b"));
    assert_eq!(step(cmd.clone(), Report::Affected(0)), Step::Done(Err(Failure::NotFound)));
    assert_eq!(step(cmd, Report::Affected(1)), Step::Done(Ok(Success::One(post(5, "a", "b")))));
}

#[test]
fn raw_create_uses_assigned_rowid() {
    let r = step(Command::Create(fields("u", "e")), Report::Inserted(17));
    assert_eq!(r, Step::Done(Ok(Success::One(post(17, "u", "e")))));
}

#[test]
fn raw_delete_reports() {
    assert_eq!(step(Command::Delete(3), Report::Affected(1)), Step::Done(Ok(Success::Deleted)));
    assert_eq!(step(Command::Delete(3), Report::Affected(0)), Step::Done(Err(Failure::NotFound)));
}

#[test]
fn store_failure_is_persistence_error() {
    assert_eq!(step(Command::List, Report::Failed), Step::Done(Err(Failure::Persistence)));
    assert_eq!(step(Command::Get(1), Report::Affected(1)), Step::Done(Err(Failure::Persistence)));
}

#[test]
fn entity_update_reads_then_saves() {
    let cmd = Command::Update(2, fields("new", "body"));
    let found = Report::Found(Some(post(2, "old", "text")));
    assert_eq!(step(cmd.clone(), found), Step::Save(post(2, "new", "body")));
    assert_eq!(step(cmd.clone(), Report::Found(None)), Step::Done(Err(Failure::NotFound)));
    let saved = Report::Stored(post(2, "new", "body"));
    assert_eq!(step(cmd, saved), Step::Done(Ok(Success::One(post(2, "new", "body")))));
}

#[test]
fn entity_get_and_list() {
    let found = Report::Found(Some(post(1, "a", "b")));
    assert_eq!(step(Command::Get(1), found), Step::Done(Ok(Success::One(post(1, "a", "b")))));
    assert_eq!(step(Command::Get(1), Report::Found(None)), Step::Done(Err(Failure::NotFound)));
    let rows = Report::Rows(vec![post(1, "a", "b")]);
    assert_eq!(step(Command::List, rows), Step::Done(Ok(Success::Many(vec![post(1, "a", "b")]))));
}

#[test]
fn put_on_missing_id_is_not_found_and_creates_nothing() {
    let mut t = MemoryTable::new();
    let k = ResourceKind::User;
    handle(&mut t, k, Method::Post, b"/users", Some(fields("alice", "a@example.com")));
    let r = handle(&mut t, k, Method::Put, b"/users/2", Some(fields("bob", "b@example.com")));
    assert_eq!(r, Response { status: 404, body: Body::Notice(Notice::NotFound) });
    let r = handle(&mut t, k, Method::Get, b"/users", None);
    assert_eq!(r, Response { status: 200, body: Body::Many(vec![post(1, "alice", "a@example.com")]) });
}

#[test]
fn delete_twice_through_handler() {
    let mut t = MemoryTable::new();
    let k = ResourceKind::Post;
    handle(&mut t, k, Method::Post, b"/posts", Some(fields("A", "B")));
    assert_eq!(handle(&mut t, k, Method::Delete, b"/posts/1", None).status, 200);
    assert_eq!(handle(&mut t, k, Method::Delete, b"/posts/1", None).status, 404);
    assert_eq!(handle(&mut t, k, Method::Delete, b"/posts/77", None).status, 404);
}

#[test]
fn resource_duplicate_is_equal() {
    let r = post(9, "x", "y");
    assert_eq!(r.duplicate(), r);
    assert_eq!(r.fields.duplicate(), fields("x", "y"));
}
