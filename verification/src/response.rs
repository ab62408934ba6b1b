//! The JSON envelope every API answer is wrapped in, and the error answers.
use vstd::prelude::*;
use crate::model::McpServers;
use crate::registry::ListAllResponse;
use crate::status;

verus! {

/// What an answer carries in its `data` field.
pub enum Payload {
    /// JSON `null`.
    Null,
    Text(String),
    Server(McpServers),
    ServerList(ListAllResponse),
}

/// The body of an API answer: `{ code, message, data }`.
pub struct Response {
    pub code: u16,
    pub message: String,
    pub data: Option<Payload>,
}

/// An error answer: the HTTP status and the body sent with it.
pub struct ApiError {
    pub status: u16,
    pub body: Response,
}

/// An error answer whose body is plain text.
pub struct TextError {
    pub status: u16,
    pub message: String,
}

impl Response {
    /// A body with this code and message and a `null` payload.
    pub open spec fn is_plain(self, code: u16, message: Seq<char>) -> bool {
        &&& self.code == code
        &&& self.message@ == message
        &&& self.data == Some(Payload::Null)
    }

    /// A body with this code and message; an absent payload becomes `null`.
    pub fn new(code: u16, message: &str, data: Option<Payload>) -> (r: Response)
        ensures
            r.code == code,
            r.message@ == message@,
            r.data == Some(
                match data {
                    Some(p) => p,
                    None => Payload::Null,
                },
            ),
    {
        let value = match data {
            Some(p) => p,
            None => Payload::Null,
        };
        Response { code, message: message.to_owned(), data: Some(value) }
    }

    /// `200 OK` carrying `data`.
    pub fn success(data: Payload) -> (r: Response)
        ensures
            r.code == status::OK,
            r.message@ == "OK"@,
            r.data == Some(data),
    {
        Response::new(status::OK, "OK", Some(data))
    }

    /// A body with this code and message and no payload.
    pub fn common(code: u16, message: &str) -> (r: Response)
        ensures
            r.is_plain(code, message@),
    {
        Response::new(code, message, None)
    }

    /// An internal-server-error body with this message.
    pub fn error(message: &str) -> (r: Response)
        ensures
            r.is_plain(status::INTERNAL_SERVER_ERROR, message@),
    {
        Response::new(status::INTERNAL_SERVER_ERROR, message, None)
    }

    pub fn internal_server_error() -> (r: Response)
        ensures
            r.is_plain(status::INTERNAL_SERVER_ERROR, "Internal Server Error"@),
    {
        Response::new(status::INTERNAL_SERVER_ERROR, "Internal Server Error", None)
    }

    pub fn not_found() -> (r: Response)
        ensures
            r.is_plain(status::NOT_FOUND, "Not Found"@),
    {
        Response::new(status::NOT_FOUND, "Not Found", None)
    }

    pub fn unauthorized() -> (r: Response)
        ensures
            r.is_plain(status::UNAUTHORIZED, "Unauthorized"@),
    {
        Response::new(status::UNAUTHORIZED, "Unauthorized", None)
    }
}

impl ApiError {
    /// Answered with `status` and a plain body with `code` and `message`.
    pub open spec fn is_plain(self, status: u16, code: u16, message: Seq<char>) -> bool {
        self.status == status && self.body.is_plain(code, message)
    }

    /// An internal server error whose body carries `message`, as the
    /// handlers answer when a step fails.
    pub open spec fn is_internal(self, message: Seq<char>) -> bool {
        self.is_plain(status::INTERNAL_SERVER_ERROR, status::INTERNAL_SERVER_ERROR, message)
    }

    /// `status` with a body `Response::error(message)`.
    pub fn internal(message: &str) -> (r: ApiError)
        ensures
            r.is_internal(message@),
    {
        ApiError { status: status::INTERNAL_SERVER_ERROR, body: Response::error(message) }
    }

    /// `status` with the body `Response::common(status, message)`.
    pub fn common(status: u16, message: &str) -> (r: ApiError)
        ensures
            r.is_plain(status, status, message@),
    {
        ApiError { status, body: Response::common(status, message) }
    }
}

/// `r` is an internal-server-error answer whose body carries `message`.
pub open spec fn fails_internal<T>(r: Result<T, ApiError>, message: Seq<char>) -> bool {
    match r {
        Err(e) => e.is_internal(message),
        Ok(_) => false,
    }
}

/// `resp` is `Response::success(data)`.
pub open spec fn is_success(resp: Response, data: Payload) -> bool {
    &&& resp.code == status::OK
    &&& resp.message@ == "OK"@
    &&& resp.data == Some(data)
}

/// `r` is the answer `Response::success(data)`.
pub open spec fn succeeds_with(r: Result<Response, ApiError>, data: Payload) -> bool {
    match r {
        Ok(resp) => is_success(resp, data),
        Err(_) => false,
    }
}

impl TextError {
    pub open spec fn is(self, status: u16, message: Seq<char>) -> bool {
        self.status == status && self.message@ == message
    }

    pub fn new(status: u16, message: &str) -> (r: TextError)
        ensures
            r.is(status, message@),
    {
        TextError { status, message: message.to_owned() }
    }
}

} // verus!
