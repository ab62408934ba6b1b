//! Administrator login.
use vstd::prelude::*;
use crate::response::{ApiError, Payload, Response, fails_internal};
use crate::status;
use crate::text::str_eq;

verus! {

pub const ADMIN_USERNAME: &'static str = "admin";

pub const ONLY_ADMIN: &'static str = "only admin can login";

pub const INVALID_TOKEN: &'static str = "Invalid token";

pub const TOKEN_REQUIRED: &'static str = "only support admin token in current version";

pub struct AdminLoginRequest {
    pub username: String,
    pub token: Option<String>,
}

pub struct AdminLoginResponse {
    pub code: Option<u16>,
    pub message: Option<String>,
}

/// The token a login must present: the configured administrator token, or
/// the empty text where none is configured.
pub open spec fn expected_admin_token(configured: Option<String>) -> Seq<char> {
    match configured {
        Some(t) => t@,
        None => seq![],
    }
}

/// The login succeeds: `200 OK` carrying an empty text.
pub open spec fn login_accepted(r: Result<Response, ApiError>) -> bool {
    match r {
        Ok(resp) => {
            &&& resp.code == status::OK
            &&& resp.message@ == "OK"@
            &&& resp.data matches Some(Payload::Text(t))
            &&& t@ == Seq::<char>::empty()
        },
        Err(_) => false,
    }
}

/// Decides on an administrator login, given the administrator token
/// configured for the service (`MCP_ADMIN_TOKEN`), where one is.
pub fn admin_login(request: AdminLoginRequest, configured_token: Option<String>) -> (r: Result<
    Response,
    ApiError,
>)
    ensures
        request.username@ != ADMIN_USERNAME@ ==> (r matches Err(e) && e.is_plain(
            status::UNAUTHORIZED,
            status::UNAUTHORIZED,
            ONLY_ADMIN@,
        )),
        request.username@ == ADMIN_USERNAME@ && request.token is None ==> fails_internal(
            r,
            TOKEN_REQUIRED@,
        ),
        request.username@ == ADMIN_USERNAME@ ==> (request.token matches Some(t) ==> (t@
            != expected_admin_token(configured_token) ==> fails_internal(r, INVALID_TOKEN@))),
        request.username@ == ADMIN_USERNAME@ ==> (request.token matches Some(t) ==> (t@
            == expected_admin_token(configured_token) ==> login_accepted(r))),
        request.username@ == ADMIN_USERNAME@ ==> (request.token matches Some(t) ==> (
        configured_token matches Some(c) ==> (login_accepted(r) <==> t@ == c@))),
        request.username@ == ADMIN_USERNAME@ ==> (request.token matches Some(t) ==> (
        configured_token is None ==> (login_accepted(r) <==> t@.len() == 0))),
        login_accepted(r) ==> request.username@ == ADMIN_USERNAME@ && request.token is Some,
{
    if !str_eq(request.username.as_str(), ADMIN_USERNAME) {
        return Err(ApiError::common(status::UNAUTHORIZED, ONLY_ADMIN));
    }
    let expected = match configured_token {
        Some(t) => t,
        None => String::new(),
    };
    match request.token {
        Some(token) => {
            proof {
                if token@.len() == 0 {
                    assert(token@ =~= Seq::<char>::empty());
                }
            }
            if !str_eq(token.as_str(), expected.as_str()) {
                return Err(ApiError::internal(INVALID_TOKEN));
            }
            Ok(Response::success(Payload::Text(String::new())))
        },
        None => Err(ApiError::internal(TOKEN_REQUIRED)),
    }
}

} // verus!
