use mcp_center::response::Payload;
use mcp_center::token::{admin_login, AdminLoginRequest, AdminLoginResponse};

fn login(username: &str, token: Option<&str>) -> AdminLoginRequest {
    AdminLoginRequest { username: username.to_string(), token: token.map(|t| t.to_string()) }
}

#[test]
fn only_admin_can_login() {
    match admin_login(login("alice", Some("t")), Some("t".to_string())) {
        Err(e) => {
            assert_eq!((e.status, e.body.code), (401, 401));
            assert_eq!(e.body.message, "only admin can login");
        }
        Ok(_) => panic!("expected a refusal"),
    }
}

#[test]
fn matching_token_logs_in() {
    match admin_login(login("admin", Some("t0k3n")), Some("t0k3n".to_string())) {
        Ok(r) => {
            assert_eq!((r.code, r.message.as_str()), (200, "OK"));
            assert!(matches!(r.data, Some(Payload::Text(ref t)) if t.is_empty()));
        }
        Err(_) => panic!("expected a login"),
    }
}

#[test]
fn wrong_token_is_refused() {
    match admin_login(login("admin", Some("nope")), Some("t0k3n".to_string())) {
        Err(e) => assert_eq!((e.status, e.body.message.as_str()), (500, "Invalid token")),
        Ok(_) => panic!("expected a refusal"),
    }
}

#[test]
fn unset_token_accepts_only_empty_token() {
    assert!(admin_login(login("admin", Some("")), None).is_ok());
    assert!(admin_login(login("admin", Some("x")), None).is_err());
}

#[test]
fn missing_token_is_refused() {
    match admin_login(login("admin", None), Some("t".to_string())) {
        Err(e) => assert_eq!(
            (e.status, e.body.message.as_str()),
            (500, "only support admin token in current version")
        ),
        Ok(_) => panic!("expected a refusal"),
    }
}

#[test]
fn login_response_fields() {
    let r = AdminLoginResponse { code: Some(200), message: None };
    assert_eq!(r.code, Some(200));
    assert!(r.message.is_none());
}
