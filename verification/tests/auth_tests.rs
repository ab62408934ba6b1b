use mcp_center::auth::{authorize, authorize_key_lookup, AuthStep, Permission};
use mcp_center::model::DbError;

fn denied(step: &AuthStep, status: u16, message: &str) -> bool {
    match step {
        AuthStep::Deny(e) => {
            e.status == status
                && e.body.code == status
                && e.body.message == message
                && matches!(e.body.data, Some(mcp_center::response::Payload::Null))
        }
        _ => false,
    }
}

#[test]
fn open_route_lets_everything_through() {
    let p = Permission::empty();
    assert!(matches!(authorize(p, None, "secret", false), AuthStep::Allow));
    assert!(matches!(authorize(p, Some("junk"), "secret", true), AuthStep::Allow));
}

#[test]
fn missing_header_is_unauthorized() {
    let step = authorize(Permission::admin(), None, "secret", true);
    assert!(denied(&step, 401, "Authorization header not found"));
}

#[test]
fn admin_token_with_or_without_bearer() {
    let p = Permission::admin();
    assert!(matches!(authorize(p, Some("secret"), "secret", false), AuthStep::Allow));
    assert!(matches!(authorize(p, Some("Bearer secret"), "secret", false), AuthStep::Allow));
}

#[test]
fn admin_only_route_refuses_other_keys() {
    let step = authorize(Permission::admin(), Some("Bearer other"), "secret", true);
    assert!(denied(&step, 401, "The API key is not permitted."));
}

#[test]
fn token_route_looks_the_key_up() {
    let p = Permission::admin().union(Permission::token());
    match authorize(p, Some("Bearer key-1"), "secret", true) {
        AuthStep::LookupKey(k) => assert_eq!(k, "key-1"),
        _ => panic!("expected a lookup"),
    }
}

#[test]
fn token_route_without_key_store_is_internal_error() {
    let step = authorize(Permission::token(), Some("key-1"), "secret", false);
    assert!(denied(&step, 500, "Internal Server Error"));
}

#[test]
fn admin_token_on_token_only_route_is_looked_up() {
    match authorize(Permission::token(), Some("secret"), "secret", true) {
        AuthStep::LookupKey(k) => assert_eq!(k, "secret"),
        _ => panic!("expected a lookup"),
    }
}

#[test]
fn key_lookup_outcomes() {
    assert!(matches!(authorize_key_lookup(Ok(())), AuthStep::Allow));
    assert!(denied(
        &authorize_key_lookup(Err(DbError::RowNotFound)),
        401,
        "The API key is not permitted."
    ));
    assert!(denied(&authorize_key_lookup(Err(DbError::Other)), 500, "Internal Server Error"));
}

#[test]
fn permission_flags() {
    let all = Permission::admin().union(Permission::token());
    assert!(all.contains(Permission::admin()));
    assert!(all.contains(Permission::token()));
    assert!(!Permission::admin().contains(Permission::token()));
    assert!(Permission::empty().is_empty());
    assert!(!Permission::token().is_empty());
    assert_eq!(all.bits(), 3);
    assert_eq!(Permission::admin().bits(), 1);
    assert_eq!(Permission::token().bits(), 2);
    assert_eq!(Permission::from_bits_truncate(0b110).bits(), 2);
    assert_eq!(Permission::all().bits(), 3);
}

#[test]
fn bearer_prefix_is_optional_for_lookups() {
    let p = Permission::token();
    let with = authorize(p, Some("Bearer abc"), "secret", true);
    let without = authorize(p, Some("abc"), "secret", true);
    match (with, without) {
        (AuthStep::LookupKey(a), AuthStep::LookupKey(b)) => assert_eq!(a, b),
        _ => panic!("expected lookups"),
    }
}
