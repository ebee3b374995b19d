use rust_crud::mediator::{health_response, ApiError, Operation, Service};
use rust_crud::pool::{Pool, POOL_MAX_CONNECTIONS};
use rust_crud::table::Table;
use rust_crud::user::{CreateUser, UpdateUser, User};

fn ann() -> CreateUser {
    CreateUser {
        name: "Ann".to_string(),
        email: "ann@example.com".to_string(),
        age: Some(30),
    }
}

#[test]
fn validate_accepts_well_shaped_input() {
    assert!(ann().validate());
    let no_age = CreateUser {
        name: "Bo".to_string(),
        email: "bo@example.com".to_string(),
        age: None,
    };
    assert!(no_age.validate());
}

#[test]
fn validate_rejects_empty_name_or_email() {
    let mut c = ann();
    c.name = String::new();
    assert!(!c.validate());
    let mut c = ann();
    c.email = String::new();
    assert!(!c.validate());
}

#[test]
fn create_returns_input_fields_with_fresh_id() {
    let mut s = Service::new(POOL_MAX_CONNECTIONS);
    let u = s.create(&ann(), 1_000).expect("create should succeed");
    assert_eq!(u.id, 1);
    assert_eq!(u.name, "Ann");
    assert_eq!(u.email, "ann@example.com");
    assert_eq!(u.age, Some(30));
    assert_eq!(u.created_at, 1_000);
    assert_eq!(u.updated_at, 1_000);
    let v = s.create(&ann(), 2_000).expect("second create should succeed");
    assert_ne!(v.id, u.id);
    assert_eq!(v.id, 2);
}

#[test]
fn get_after_create_returns_equal_user() {
    let mut s = Service::new(POOL_MAX_CONNECTIONS);
    let u = s.create(&ann(), 1_000).expect("create should succeed");
    let w = s.get_by_id(u.id).expect("lookup should succeed");
    assert_eq!(w.id, u.id);
    assert_eq!(w.name, u.name);
    assert_eq!(w.email, u.email);
    assert_eq!(w.age, u.age);
    assert_eq!(w.created_at, u.created_at);
    assert_eq!(w.updated_at, u.updated_at);
}

#[test]
fn get_on_never_assigned_id_is_a_storage_error() {
    let mut s = Service::new(POOL_MAX_CONNECTIONS);
    let r = s.get_by_id(42);
    match r {
        Err(ApiError::Storage(_)) => {}
        _ => panic!("a never-assigned identifier must yield the storage error"),
    }
    assert_eq!(s.pool.in_use, 0);
}

#[test]
fn validation_error_leaves_table_untouched() {
    let mut s = Service::new(POOL_MAX_CONNECTIONS);
    let mut c = ann();
    c.name = String::new();
    match s.create(&c, 1_000) {
        Err(ApiError::Validation(_)) => {}
        _ => panic!("an empty name must be rejected"),
    }
    assert_eq!(s.table.rows.len(), 0);
    assert_eq!(s.pool.in_use, 0);
}

#[test]
fn pool_admits_at_most_the_configured_maximum() {
    let mut p = Pool::new(POOL_MAX_CONNECTIONS);
    let mut held = Vec::new();
    for _ in 0..POOL_MAX_CONNECTIONS {
        held.push(p.acquire().expect("a free connection must be served"));
    }
    assert_eq!(p.in_use, POOL_MAX_CONNECTIONS);
    assert!(p.acquire().is_none(), "the sixth acquisition must wait");
    let first = held.remove(0);
    p.release(first);
    assert!(p.acquire().is_some(), "a release makes room for one more");
    assert_eq!(p.in_use, POOL_MAX_CONNECTIONS);
}

#[test]
fn pool_tokens_are_distinct() {
    let mut p = Pool::new(2);
    let a = p.acquire().expect("first");
    let b = p.acquire().expect("second");
    assert_ne!(a.token, b.token);
}

#[test]
fn exhausted_pool_times_out_an_operation() {
    let mut s = Service::new(1);
    let held = s.pool.acquire().expect("the one connection");
    match s.create(&ann(), 1_000) {
        Err(ApiError::PoolTimeout) => {}
        _ => panic!("a full pool must surface the timeout error"),
    }
    s.pool.release(held);
    assert!(s.create(&ann(), 1_000).is_ok());
}

#[test]
fn storage_error_keeps_detail_and_releases_connection() {
    let e = ApiError::Storage("duplicate key value violates unique constraint".to_string());
    assert_eq!(e.status(), 500);
    let m = ApiError::Storage("duplicate key value violates unique constraint".to_string())
        .message(Operation::Create);
    assert!(!m.is_empty());
    assert_eq!(
        m,
        "Failed to create user: duplicate key value violates unique constraint"
    );
    let m = ApiError::Storage("connection reset".to_string()).message(Operation::Get);
    assert_eq!(m, "Failed to get user: connection reset");
    let mut s = Service::new(POOL_MAX_CONNECTIONS);
    let _ = s.create(&ann(), 1_000).expect("create");
    let _ = s.create(&ann(), 1_000).expect("a second create with the same fields");
    assert_eq!(s.pool.in_use, 0, "every operation returns its connection");
}

#[test]
fn error_statuses_and_messages() {
    assert_eq!(ApiError::PoolTimeout.status(), 503);
    assert_eq!(
        ApiError::PoolTimeout.message(Operation::Create),
        "no database connection became available"
    );
    assert_eq!(
        ApiError::PoolTimeout.message(Operation::Get),
        "no database connection became available"
    );
    let v = ApiError::Validation("name and email must be non-empty".to_string());
    assert_eq!(v.status(), 400);
    assert_eq!(
        v.message(Operation::Create),
        "invalid input: name and email must be non-empty"
    );
}

#[test]
fn health_is_ok_under_normal_operation() {
    let (status, body) = health_response(true);
    assert_eq!(status, 200);
    assert_eq!(body, "{\"status\":\"ok\",\"database\":\"connected\"}");
    let (status, body) = health_response(false);
    assert_eq!(status, 200);
    assert_eq!(body, "{\"status\":\"ok\",\"database\":\"disconnected\"}");
}

#[test]
fn table_assigns_increasing_identifiers_starting_at_one() {
    let mut t = Table::new();
    let a = t.insert(&ann(), 0);
    let b = t.insert(&ann(), 0);
    assert_eq!(a.id, 1);
    assert_eq!(b.id, 2);
    assert_eq!(t.next_id, 3);
    assert!(t.lookup(1).is_some());
    assert!(t.lookup(3).is_none());
}

#[test]
fn update_user_is_a_defined_but_inactive_input() {
    let u = UpdateUser {
        name: Some("Ann".to_string()),
        email: None,
        age: Some(31),
    };
    assert_eq!(u.name.as_deref(), Some("Ann"));
    assert!(u.email.is_none());
    assert_eq!(u.age, Some(31));
}

#[test]
fn user_rows_carry_plain_timestamps() {
    let u = User {
        id: 7,
        name: "Ann".to_string(),
        email: "ann@example.com".to_string(),
        age: None,
        created_at: 1_431_648_000,
        updated_at: 1_431_648_000,
    };
    assert_eq!(u.created_at, u.updated_at);
}
