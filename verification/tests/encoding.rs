use rust_crud::encode::{append_escaped, append_i64, encode_user};
use rust_crud::mediator::Service;
use rust_crud::pool::POOL_MAX_CONNECTIONS;
use rust_crud::user::{CreateUser, User};

#[test]
fn decimal_text_is_exact() {
    let mut s = String::new();
    append_i64(&mut s, 0);
    assert_eq!(s, "0");
    let mut s = String::new();
    append_i64(&mut s, 30);
    assert_eq!(s, "30");
    let mut s = String::new();
    append_i64(&mut s, -123);
    assert_eq!(s, "-123");
    let mut s = String::new();
    append_i64(&mut s, i64::MAX);
    assert_eq!(s, "9223372036854775807");
    let mut s = String::new();
    append_i64(&mut s, i64::MIN);
    assert_eq!(s, "-9223372036854775808");
}

#[test]
fn escaping_handles_quotes_backslashes_and_controls() {
    let mut s = String::new();
    append_escaped(&mut s, "a\"b\\c\nd\u{1}e");
    assert_eq!(s, "a\\\"b\\\\c\\nd\\u0001e");
    let mut s = String::new();
    append_escaped(&mut s, "plain text");
    assert_eq!(s, "plain text");
}

#[test]
fn encoded_user_is_the_exact_json_object() {
    let u = User {
        id: 1,
        name: "Ann".to_string(),
        email: "ann@example.com".to_string(),
        age: Some(30),
        created_at: 0,
        updated_at: 0,
    };
    assert_eq!(
        encode_user(&u),
        "{\"id\":1,\"name\":\"Ann\",\"email\":\"ann@example.com\",\"age\":30,\
         \"created_at\":\"1970-01-01T00:00:00+00:00\",\
         \"updated_at\":\"1970-01-01T00:00:00+00:00\"}"
    );
}

#[test]
fn encoded_timestamps_are_calendar_text_not_raw_seconds() {
    let u = User {
        id: 2,
        name: "Bo".to_string(),
        email: "bo@example.com".to_string(),
        age: None,
        created_at: 1_431_648_000,
        updated_at: 1_431_648_000,
    };
    let body = encode_user(&u);
    assert!(body.contains("\"age\":null"));
    assert!(body.contains("\"created_at\":\"2015-05-15T00:00:00+00:00\""));
    assert!(!body.contains("\"created_at\":\"1431648000\""));
}

#[test]
fn created_user_round_trips_through_the_encoder() {
    let mut s = Service::new(POOL_MAX_CONNECTIONS);
    let input = CreateUser {
        name: "Ann".to_string(),
        email: "ann@example.com".to_string(),
        age: Some(30),
    };
    let u = s.create(&input, 1_431_648_000).expect("create");
    let body = encode_user(&u);
    assert!(body.contains("\"id\":1"));
    assert!(body.contains("\"name\":\"Ann\""));
    assert!(body.contains("\"email\":\"ann@example.com\""));
    assert!(body.contains("\"age\":30"));
    assert!(body.contains("\"created_at\":\"2015-05-15T00:00:00+00:00\""));
    assert!(body.contains("\"updated_at\":\"2015-05-15T00:00:00+00:00\""));
}
