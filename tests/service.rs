use user_profiles::profile::{QueryError, UserProfile};
use user_profiles::reply::{hello, list_reply, profile_reply, Body, GREETING, STATUS_OK, STATUS_SERVER_ERROR};
use user_profiles::statement::{one_row, Param, Statement, CREATE_USER_SQL, DELETE_USER_SQL, LIST_USERS_SQL, UPDATE_USER_SQL};
use user_profiles::store::MemoryStore;

fn profile(id: i32, name: &str, role_id: i32) -> UserProfile {
    UserProfile { id, name: name.to_string(), role_id }
}

fn same(a: &UserProfile, b: &UserProfile) -> bool {
    a.id == b.id && a.name == b.name && a.role_id == b.role_id
}

fn seeded() -> MemoryStore {
    let mut s = MemoryStore::new();
    assert_eq!(s.add_role("Admin".to_string()).unwrap().id, 1);
    assert_eq!(s.add_role("User".to_string()).unwrap().id, 2);
    s
}

#[test]
fn root_route_greets() {
    let r = hello();
    assert_eq!(r.status, 200);
    match r.body {
        Body::Text(t) => assert_eq!(t, "Hello world!"),
        _ => panic!("expected text"),
    }
    assert_eq!(GREETING, "Hello world!");
}

#[test]
fn root_route_ignores_store_state() {
    let mut s = seeded();
    s.create_user("John Doe".to_string(), 1).unwrap();
    let r = hello();
    assert_eq!(r.status, STATUS_OK);
    assert!(matches!(r.body, Body::Text("Hello world!")));
}

#[test]
fn empty_listing_is_ok() {
    let s = seeded();
    let listed = s.list_users();
    assert!(listed.is_empty());
    let r = list_reply(Ok(listed));
    assert_eq!(r.status, 200);
    match r.body {
        Body::Profiles(v) => assert!(v.is_empty()),
        _ => panic!("expected profiles"),
    }
}

#[test]
fn create_then_list() {
    let mut s = seeded();
    let p = s.create_user("John Doe".to_string(), 1).unwrap();
    assert!(p.id > 0);
    assert_eq!(p.name, "John Doe");
    assert_eq!(p.role_id, 1);
    let listed = s.list_users();
    assert_eq!(listed.len(), 1);
    assert!(same(&listed[0], &p));
}

#[test]
fn created_with_unknown_role_is_not_listed() {
    let mut s = seeded();
    let p = s.create_user("Ghost".to_string(), 7).unwrap();
    assert_eq!(p.id, 1);
    assert!(s.list_users().is_empty());
}

#[test]
fn update_missing_fails_and_creates_nothing() {
    let mut s = seeded();
    s.create_user("John Doe".to_string(), 1).unwrap();
    let r = s.update_user(999999, "Nobody".to_string(), 1);
    assert_eq!(r.as_ref().unwrap_err(), &QueryError::NotFound);
    let reply = profile_reply(r);
    assert_eq!(reply.status, 500);
    assert!(matches!(reply.body, Body::Empty));
    let listed = s.list_users();
    assert_eq!(listed.len(), 1);
    assert_eq!(listed[0].name, "John Doe");
}

#[test]
fn update_role_then_list() {
    let mut s = seeded();
    let john = s.create_user("John Doe".to_string(), 1).unwrap();
    let jane = s.create_user("Jane Smith".to_string(), 2).unwrap();
    let u = s.update_user(john.id, "John Doe".to_string(), 2).unwrap();
    assert!(same(&u, &profile(john.id, "John Doe", 2)));
    let listed = s.list_users();
    assert_eq!(listed.len(), 2);
    assert!(same(&listed[0], &u));
    assert!(same(&listed[1], &jane));
    let reply = profile_reply(Ok(u));
    assert_eq!(reply.status, 200);
    match reply.body {
        Body::Profile(p) => assert_eq!(p.role_id, 2),
        _ => panic!("expected a profile"),
    }
}

#[test]
fn delete_then_list_then_delete_again() {
    let mut s = seeded();
    let john = s.create_user("John Doe".to_string(), 1).unwrap();
    let jane = s.create_user("Jane Smith".to_string(), 2).unwrap();
    let d = s.delete_user(john.id).unwrap();
    assert!(same(&d, &john));
    let listed = s.list_users();
    assert_eq!(listed.len(), 1);
    assert!(same(&listed[0], &jane));
    assert_eq!(s.delete_user(john.id).unwrap_err(), QueryError::NotFound);
}

#[test]
fn two_creates_get_distinct_ids() {
    let mut s = seeded();
    let a = s.create_user("A".to_string(), 1).unwrap();
    let b = s.create_user("B".to_string(), 2).unwrap();
    assert_eq!(a.id, 1);
    assert_eq!(b.id, 2);
    assert_ne!(a.id, b.id);
}

#[test]
fn ids_are_not_reused_after_delete() {
    let mut s = seeded();
    let a = s.create_user("A".to_string(), 1).unwrap();
    s.delete_user(a.id).unwrap();
    let b = s.create_user("B".to_string(), 1).unwrap();
    assert_eq!(b.id, 2);
}

#[test]
fn failed_listing_is_server_error() {
    let r = list_reply(Err(QueryError::Backend));
    assert_eq!(r.status, STATUS_SERVER_ERROR);
    assert!(matches!(r.body, Body::Empty));
}

#[test]
fn one_row_takes_the_first() {
    let r = one_row(Ok(vec![profile(4, "x", 1), profile(5, "y", 2)])).unwrap();
    assert!(same(&r, &profile(4, "x", 1)));
    assert_eq!(one_row(Ok(vec![])).unwrap_err(), QueryError::NotFound);
    assert_eq!(one_row(Err(QueryError::Backend)).unwrap_err(), QueryError::Backend);
}

#[test]
fn statements_bind_their_values() {
    let body = profile(42, "John Doe", 1);
    let list = Statement::list_users();
    assert_eq!(list.sql, LIST_USERS_SQL);
    assert!(list.params.is_empty());

    let c = Statement::create_user(&body);
    assert_eq!(c.sql, CREATE_USER_SQL);
    assert_eq!(c.params.len(), 2);
    assert!(matches!(&c.params[0], Param::Text(s) if s == "John Doe"));
    assert!(matches!(c.params[1], Param::Int(1)));

    let u = Statement::update_user(7, &body);
    assert_eq!(u.sql, UPDATE_USER_SQL);
    assert_eq!(u.params.len(), 3);
    assert!(matches!(&u.params[0], Param::Text(s) if s == "John Doe"));
    assert!(matches!(u.params[1], Param::Int(1)));
    assert!(matches!(u.params[2], Param::Int(7)));

    let d = Statement::delete_user(7);
    assert_eq!(d.sql, DELETE_USER_SQL);
    assert_eq!(d.params.len(), 1);
    assert!(matches!(d.params[0], Param::Int(7)));
}
