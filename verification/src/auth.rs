//! The authorization layer: which requests reach a protected route.
use vstd::prelude::*;
use crate::model::DbError;
use crate::response::{ApiError, Response};
use crate::status;
use crate::text::{str_eq, strip_prefix, strip_prefix_spec, starts_with, lemma_strip_prefix_shape};

verus! {

/// The kinds of credentials a route accepts.
#[derive(Clone, Copy)]
pub struct Permission {
    admin: bool,
    token: bool,
}

impl Permission {
    /// The route accepts the administrator token.
    pub closed spec fn has_admin(self) -> bool {
        self.admin
    }

    /// The route accepts API keys kept in the key store.
    pub closed spec fn has_token(self) -> bool {
        self.token
    }

    /// The route is open to every request.
    pub open spec fn is_empty_spec(self) -> bool {
        !self.has_admin() && !self.has_token()
    }

    pub fn empty() -> (r: Permission)
        ensures
            !r.has_admin(),
            !r.has_token(),
    {
        Permission { admin: false, token: false }
    }

    pub fn admin() -> (r: Permission)
        ensures
            r.has_admin(),
            !r.has_token(),
    {
        Permission { admin: true, token: false }
    }

    pub fn token() -> (r: Permission)
        ensures
            !r.has_admin(),
            r.has_token(),
    {
        Permission { admin: false, token: true }
    }

    pub fn all() -> (r: Permission)
        ensures
            r.has_admin(),
            r.has_token(),
    {
        Permission { admin: true, token: true }
    }

    /// The credentials accepted by either.
    pub fn union(self, other: Permission) -> (r: Permission)
        ensures
            r.has_admin() == (self.has_admin() || other.has_admin()),
            r.has_token() == (self.has_token() || other.has_token()),
    {
        Permission { admin: self.admin || other.admin, token: self.token || other.token }
    }

    pub fn is_empty(&self) -> (r: bool)
        ensures
            r == self.is_empty_spec(),
    {
        !self.admin && !self.token
    }

    /// Whether every credential kind of `other` is accepted here too.
    pub fn contains(&self, other: Permission) -> (r: bool)
        ensures
            r == ((other.has_admin() ==> self.has_admin()) && (other.has_token()
                ==> self.has_token())),
    {
        (!other.admin || self.admin) && (!other.token || self.token)
    }

    /// The flags as bits: `0b01` for the administrator token, `0b10` for API keys.
    pub fn bits(&self) -> (r: u8)
        ensures
            r == (if self.has_admin() { 1u8 } else { 0u8 }) + (if self.has_token() {
                2u8
            } else {
                0u8
            }),
    {
        let a: u8 = if self.admin { 1 } else { 0 };
        let t: u8 = if self.token { 2 } else { 0 };
        a + t
    }

    /// The flags whose bits are set in `bits`; other bits are ignored.
    pub fn from_bits_truncate(bits: u8) -> (r: Permission)
        ensures
            r.has_admin() == (bits % 2 == 1),
            r.has_token() == ((bits / 2) % 2 == 1),
    {
        Permission { admin: bits % 2 == 1, token: (bits / 2) % 2 == 1 }
    }
}

/// The scheme word an authorization header may start with.
pub const BEARER_PREFIX: &'static str = "Bearer ";

pub const HEADER_NOT_FOUND: &'static str = "Authorization header not found";

pub const KEY_NOT_PERMITTED: &'static str = "The API key is not permitted.";

pub const INTERNAL_SERVER_ERROR_MESSAGE: &'static str = "Internal Server Error";

/// What the layer decides, before any key-store lookup.
pub enum AuthVerdict {
    /// Pass the request on to the route.
    Allow,
    /// Answer with `status` and a body with that code and `message`.
    Deny { status: u16, message: Seq<char> },
    /// Look the key up in the key store and decide on the outcome.
    Lookup(Seq<char>),
}

/// A decision of the layer.
pub enum AuthStep {
    Allow,
    Deny(ApiError),
    LookupKey(String),
}

impl AuthStep {
    pub open spec fn matches(self, v: AuthVerdict) -> bool {
        match (self, v) {
            (AuthStep::Allow, AuthVerdict::Allow) => true,
            (AuthStep::Deny(e), AuthVerdict::Deny { status, message }) => e.is_plain(
                status,
                status,
                message,
            ),
            (AuthStep::LookupKey(k), AuthVerdict::Lookup(key)) => k@ == key,
            _ => false,
        }
    }
}

pub open spec fn opt_str_view(s: Option<&str>) -> Option<Seq<char>> {
    match s {
        Some(h) => Some(h@),
        None => None,
    }
}

/// The key a header presents: its value, without a leading `Bearer `.
pub open spec fn presented_key(header: Seq<char>) -> Seq<char> {
    strip_prefix_spec(header, BEARER_PREFIX@)
}

/// The header `header` presents the key `key`: it is `Bearer ` followed by
/// the key, or, where it does not start with `Bearer `, the key itself.
pub open spec fn presents(header: Seq<char>, key: Seq<char>) -> bool {
    if starts_with(header, BEARER_PREFIX@) {
        header == BEARER_PREFIX@ + key
    } else {
        header == key
    }
}

/// A header presents exactly one key, the one `presented_key` gives.
pub proof fn lemma_presented_key_is_the_key(header: Seq<char>, key: Seq<char>)
    ensures
        presents(header, presented_key(header)),
        presents(header, key) <==> key == presented_key(header),
{
    lemma_strip_prefix_shape(header, BEARER_PREFIX@);
    if starts_with(header, BEARER_PREFIX@) && header == BEARER_PREFIX@ + key {
        let n = BEARER_PREFIX@.len() as int;
        assert(key =~= header.subrange(n, header.len() as int));
    }
}

/// The decision for a request to a route guarded by `permission`, given the
/// value of its authorization header, the administrator token and whether a
/// key store is available.
pub open spec fn auth_verdict(
    permission: Permission,
    header: Option<Seq<char>>,
    admin_token: Seq<char>,
    has_key_store: bool,
) -> AuthVerdict {
    if permission.is_empty_spec() {
        AuthVerdict::Allow
    } else {
        match header {
            None => AuthVerdict::Deny {
                status: status::UNAUTHORIZED,
                message: HEADER_NOT_FOUND@,
            },
            Some(h) => {
                let key = presented_key(h);
                if permission.has_admin() && key == admin_token {
                    AuthVerdict::Allow
                } else if permission.has_token() {
                    if has_key_store {
                        AuthVerdict::Lookup(key)
                    } else {
                        AuthVerdict::Deny {
                            status: status::INTERNAL_SERVER_ERROR,
                            message: INTERNAL_SERVER_ERROR_MESSAGE@,
                        }
                    }
                } else {
                    AuthVerdict::Deny { status: status::UNAUTHORIZED, message: KEY_NOT_PERMITTED@ }
                }
            },
        }
    }
}

/// The decision once the key store has answered a lookup.
pub open spec fn key_lookup_verdict(found: Result<(), DbError>) -> AuthVerdict {
    match found {
        Ok(_) => AuthVerdict::Allow,
        Err(DbError::RowNotFound) => AuthVerdict::Deny {
            status: status::UNAUTHORIZED,
            message: KEY_NOT_PERMITTED@,
        },
        Err(DbError::Other) => AuthVerdict::Deny {
            status: status::INTERNAL_SERVER_ERROR,
            message: INTERNAL_SERVER_ERROR_MESSAGE@,
        },
    }
}

/// Decides on a request to a route guarded by `permission`. `header` is the
/// value of its `Authorization` header, where it has one.
pub fn authorize(
    permission: Permission,
    header: Option<&str>,
    admin_token: &str,
    has_key_store: bool,
) -> (r: AuthStep)
    ensures
        r.matches(auth_verdict(permission, opt_str_view(header), admin_token@, has_key_store)),
        permission.is_empty_spec() ==> r is Allow,
        !permission.is_empty_spec() && header is None ==> (r matches AuthStep::Deny(e)
            && e.is_plain(status::UNAUTHORIZED, status::UNAUTHORIZED, HEADER_NOT_FOUND@)),
        r matches AuthStep::LookupKey(k) ==> (header matches Some(h) && presents(h@, k@)),
        permission.has_admin() ==> (header matches Some(h) ==> (presents(h@, admin_token@)
            ==> r is Allow)),
        permission.has_token() && has_key_store ==> (header matches Some(h) ==> (!(
        permission.has_admin() && presents(h@, admin_token@)) ==> r is LookupKey)),
{
    proof {
        if let Some(h) = header {
            lemma_presented_key_is_the_key(h@, admin_token@);
        }
    }
    if permission.is_empty() {
        return AuthStep::Allow;
    }
    match header {
        None => AuthStep::Deny(ApiError::common(status::UNAUTHORIZED, HEADER_NOT_FOUND)),
        Some(h) => {
            let key = strip_prefix(h, BEARER_PREFIX);
            if permission.contains(Permission::admin()) && str_eq(key.as_str(), admin_token) {
                return AuthStep::Allow;
            }
            if permission.contains(Permission::token()) {
                if !has_key_store {
                    return AuthStep::Deny(
                        ApiError {
                            status: status::INTERNAL_SERVER_ERROR,
                            body: Response::internal_server_error(),
                        },
                    );
                }
                return AuthStep::LookupKey(key);
            }
            AuthStep::Deny(ApiError::common(status::UNAUTHORIZED, KEY_NOT_PERMITTED))
        },
    }
}

/// Decides on a request once the key store has looked its key up.
pub fn authorize_key_lookup(found: Result<(), DbError>) -> (r: AuthStep)
    ensures
        r.matches(key_lookup_verdict(found)),
        found is Ok ==> r is Allow,
        found == Err::<(), DbError>(DbError::RowNotFound) ==> (r matches AuthStep::Deny(e)
            && e.is_plain(status::UNAUTHORIZED, status::UNAUTHORIZED, KEY_NOT_PERMITTED@)),
        found == Err::<(), DbError>(DbError::Other) ==> (r matches AuthStep::Deny(e) && e.is_plain(
            status::INTERNAL_SERVER_ERROR,
            status::INTERNAL_SERVER_ERROR,
            INTERNAL_SERVER_ERROR_MESSAGE@,
        )),
{
    match found {
        Ok(_) => AuthStep::Allow,
        Err(DbError::RowNotFound) => AuthStep::Deny(
            ApiError::common(status::UNAUTHORIZED, KEY_NOT_PERMITTED),
        ),
        Err(DbError::Other) => AuthStep::Deny(
            ApiError {
                status: status::INTERNAL_SERVER_ERROR,
                body: Response::internal_server_error(),
            },
        ),
    }
}

/// A route without required credentials lets every request through,
/// whatever header it carries.
pub proof fn lemma_open_route_admits_all(
    header: Option<Seq<char>>,
    admin_token: Seq<char>,
    has_key_store: bool,
)
    ensures
        forall|p: Permission|
            p.is_empty_spec() ==> #[trigger] auth_verdict(p, header, admin_token, has_key_store)
                == AuthVerdict::Allow,
{
}

/// On a guarded route, a request without an authorization header is
/// answered `401` with "Authorization header not found".
pub proof fn lemma_missing_header_denied(
    permission: Permission,
    admin_token: Seq<char>,
    has_key_store: bool,
)
    requires
        !permission.is_empty_spec(),
    ensures
        auth_verdict(permission, None, admin_token, has_key_store) == (AuthVerdict::Deny {
            status: status::UNAUTHORIZED,
            message: HEADER_NOT_FOUND@,
        }),
{
}

/// A key is judged the same whether or not it is sent after `Bearer `
/// (for keys that do not themselves start with `Bearer `).
pub proof fn lemma_bearer_prefix_optional(
    permission: Permission,
    key: Seq<char>,
    admin_token: Seq<char>,
    has_key_store: bool,
)
    requires
        !(BEARER_PREFIX@.len() <= key.len() && key.subrange(0, BEARER_PREFIX@.len() as int)
            == BEARER_PREFIX@),
    ensures
        auth_verdict(permission, Some(BEARER_PREFIX@ + key), admin_token, has_key_store)
            == auth_verdict(permission, Some(key), admin_token, has_key_store),
{
    let h = BEARER_PREFIX@ + key;
    assert(h.subrange(0, BEARER_PREFIX@.len() as int) =~= BEARER_PREFIX@);
    assert(h.subrange(BEARER_PREFIX@.len() as int, h.len() as int) =~= key);
}

/// On a route that accepts the administrator token, presenting it (with or
/// without `Bearer `) lets the request through, without any lookup.
pub proof fn lemma_admin_token_admits(
    permission: Permission,
    header: Seq<char>,
    admin_token: Seq<char>,
    has_key_store: bool,
)
    requires
        permission.has_admin(),
        presented_key(header) == admin_token,
    ensures
        auth_verdict(permission, Some(header), admin_token, has_key_store) == AuthVerdict::Allow,
{
}

/// On a route that accepts API keys and has a key store, every key other
/// than an accepted administrator token is looked up, exactly as presented:
/// the header without a leading `Bearer `, whatever its length.
pub proof fn lemma_key_looked_up_as_presented(
    permission: Permission,
    header: Seq<char>,
    admin_token: Seq<char>,
)
    requires
        permission.has_token(),
        !(permission.has_admin() && presents(header, admin_token)),
    ensures
        auth_verdict(permission, Some(header), admin_token, true) matches AuthVerdict::Lookup(k)
            && presents(header, k),
        forall|k: Seq<char>|
            presents(header, k) ==> auth_verdict(permission, Some(header), admin_token, true)
                == AuthVerdict::Lookup(k),
{
    lemma_presented_key_is_the_key(header, admin_token);
    lemma_presented_key_is_the_key(header, presented_key(header));
    assert forall|k: Seq<char>| presents(header, k) implies auth_verdict(
        permission,
        Some(header),
        admin_token,
        true,
    ) == AuthVerdict::Lookup(k) by {
        lemma_presented_key_is_the_key(header, k);
    }
}

/// A route that accepts only the administrator token refuses every other
/// key with `401`, without consulting the key store.
pub proof fn lemma_admin_only_refuses_other_keys(
    permission: Permission,
    header: Seq<char>,
    admin_token: Seq<char>,
    has_key_store: bool,
)
    requires
        permission.has_admin(),
        !permission.has_token(),
        presented_key(header) != admin_token,
    ensures
        auth_verdict(permission, Some(header), admin_token, has_key_store) == (AuthVerdict::Deny {
            status: status::UNAUTHORIZED,
            message: KEY_NOT_PERMITTED@,
        }),
{
}

} // verus!
