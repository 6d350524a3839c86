use actix_session::{Session, SessionExt, SessionStatus};
use actix_web::test::TestRequest;
use session_counter::handlers::{
    do_something, index, login, logout, HandlerError, Identity, IndexResponse,
};
use session_counter::session::{lookup_int, lookup_text, Lookup};

fn fresh_session() -> Session {
    TestRequest::default().to_http_request().get_session()
}

fn identity(name: &str) -> Option<Identity> {
    Some(Identity { user_id: name.to_string() })
}

#[test]
fn index_on_fresh_session() {
    let s = fresh_session();
    assert_eq!(index(&s), Ok(IndexResponse { user_id: None, counter: 0 }));
    assert_eq!(s.status(), SessionStatus::Unchanged);
}

#[test]
fn index_reads_stored_values() {
    let s = fresh_session();
    s.insert("user_id", "bob").unwrap();
    s.insert("counter", 7).unwrap();
    assert_eq!(
        index(&s),
        Ok(IndexResponse { user_id: Some("bob".to_string()), counter: 7 })
    );
}

#[test]
fn index_malformed_counter_is_an_error() {
    let s = fresh_session();
    s.insert("counter", "seven").unwrap();
    assert_eq!(index(&s), Err(HandlerError::MalformedSessionValue));
}

#[test]
fn index_malformed_user_is_an_error() {
    let s = fresh_session();
    s.insert("user_id", 12).unwrap();
    assert_eq!(index(&s), Err(HandlerError::MalformedSessionValue));
}

#[test]
fn lookups_tell_absent_from_malformed() {
    let s = fresh_session();
    assert!(matches!(lookup_int(&s, "counter"), Lookup::Absent));
    s.insert("counter", 3).unwrap();
    assert!(matches!(lookup_int(&s, "counter"), Lookup::Valid(3)));
    s.insert("counter", "x").unwrap();
    assert!(matches!(lookup_int(&s, "counter"), Lookup::Malformed));
    assert!(matches!(lookup_text(&s, "user_id"), Lookup::Absent));
    s.insert("user_id", "eve").unwrap();
    match lookup_text(&s, "user_id") {
        Lookup::Valid(v) => assert_eq!(v, "eve"),
        _ => panic!("expected a valid user"),
    }
}

#[test]
fn increments_in_sequence_count_up() {
    let mut s = fresh_session();
    s.insert("user_id", "carol").unwrap();
    for n in 1..=5 {
        assert_eq!(
            do_something(&mut s),
            Ok(IndexResponse { user_id: Some("carol".to_string()), counter: n })
        );
    }
    assert_eq!(s.get::<i32>("counter").unwrap(), Some(5));
    assert_eq!(s.get::<String>("user_id").unwrap(), Some("carol".to_string()));
    assert_eq!(s.status(), SessionStatus::Changed);
}

#[test]
fn increment_anonymous_starts_at_one() {
    let mut s = fresh_session();
    assert_eq!(do_something(&mut s), Ok(IndexResponse { user_id: None, counter: 1 }));
    assert_eq!(s.get::<i32>("counter").unwrap(), Some(1));
}

#[test]
fn increment_at_largest_counter_fails_and_writes_nothing() {
    let mut s = fresh_session();
    s.insert("counter", i32::MAX).unwrap();
    assert_eq!(do_something(&mut s), Err(HandlerError::CounterOverflow));
    assert_eq!(s.get::<i32>("counter").unwrap(), Some(i32::MAX));
}

#[test]
fn increment_malformed_counter_fails() {
    let mut s = fresh_session();
    s.insert("counter", "ten").unwrap();
    assert_eq!(do_something(&mut s), Err(HandlerError::MalformedSessionValue));
    assert_eq!(s.get::<String>("counter").unwrap(), Some("ten".to_string()));
}

#[test]
fn login_on_fresh_session_renews() {
    let mut s = fresh_session();
    assert_eq!(
        login(&mut s, identity("alice")),
        Ok(IndexResponse { user_id: Some("alice".to_string()), counter: 0 })
    );
    assert_eq!(s.status(), SessionStatus::Renewed);
    assert_eq!(s.get::<String>("user_id").unwrap(), Some("alice".to_string()));
}

#[test]
fn login_keeps_the_counter() {
    let mut s = fresh_session();
    s.insert("counter", 4).unwrap();
    assert_eq!(
        login(&mut s, identity("dave")),
        Ok(IndexResponse { user_id: Some("dave".to_string()), counter: 4 })
    );
    assert_eq!(s.get::<i32>("counter").unwrap(), Some(4));
}

#[test]
fn login_without_payload_is_a_client_error() {
    let mut s = fresh_session();
    let r = login(&mut s, None);
    assert_eq!(r, Err(HandlerError::MissingOrInvalidPayload));
    assert_eq!(r.unwrap_err().status_code(), 400);
    assert_eq!(s.status(), SessionStatus::Unchanged);
    assert!(s.entries().is_empty());
}

#[test]
fn login_then_logout_then_index() {
    let mut s = fresh_session();
    login(&mut s, identity("alice")).unwrap();
    // The next request on the renewed cookie sees what this one stored.
    let stored = s.get::<String>("user_id").unwrap().unwrap();
    let mut next = fresh_session();
    next.insert("user_id", stored).unwrap();
    assert_eq!(logout(&mut next), Ok("Logged out: alice".to_string()));
    assert_eq!(next.status(), SessionStatus::Purged);
    assert!(next.entries().is_empty());

    let after = fresh_session();
    assert_eq!(index(&after), Ok(IndexResponse { user_id: None, counter: 0 }));
}

#[test]
fn logout_anonymous_is_not_an_error() {
    let mut s = fresh_session();
    assert_eq!(logout(&mut s), Ok("Could not log out anonymous user".to_string()));
    assert_eq!(s.status(), SessionStatus::Unchanged);
}

#[test]
fn logout_malformed_user_fails() {
    let mut s = fresh_session();
    s.insert("user_id", 3).unwrap();
    assert_eq!(logout(&mut s), Err(HandlerError::MalformedSessionValue));
    assert_eq!(s.status(), SessionStatus::Changed);
}

#[test]
fn error_status_codes() {
    assert_eq!(HandlerError::MalformedSessionValue.status_code(), 500);
    assert_eq!(HandlerError::MissingOrInvalidPayload.status_code(), 400);
    assert_eq!(HandlerError::CounterOverflow.status_code(), 500);
}
