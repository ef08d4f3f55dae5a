//! HTTP replies as plain values, and the handlers whose reply is fixed.

use vstd::prelude::*;

verus! {

/// An HTTP reply: status code and text body.
pub struct Reply {
    pub status: u16,
    pub body: String,
}

/// `r` has the given status and body.
pub open spec fn is_reply(r: Reply, status: u16, body: Seq<char>) -> bool {
    r.status == status && r.body@ == body
}

pub const OK: u16 = 200;
pub const BAD_REQUEST: u16 = 400;
pub const UNAUTHORIZED: u16 = 401;
pub const FORBIDDEN: u16 = 403;
pub const NOT_FOUND: u16 = 404;
pub const CONFLICT: u16 = 409;
pub const INTERNAL_SERVER_ERROR: u16 = 500;

/// A reply with the given status and a copy of `body`.
pub fn reply(status: u16, body: &str) -> (r: Reply)
    ensures
        is_reply(r, status, body@),
{
    Reply { status, body: String::from_str(body) }
}

/// `GET /`: greets.
pub fn say_hello() -> (r: Reply)
    ensures
        is_reply(r, OK, "Hello world!"@),
{
    reply(OK, "Hello world!")
}

/// `GET /child`.
pub fn say_juvinile_stuff() -> (r: Reply)
    ensures
        is_reply(r, OK, "I am a child"@),
{
    reply(OK, "I am a child")
}

/// `POST /send_email`: answers with the request body unchanged.
pub fn send_email(email: String) -> (r: Reply)
    ensures
        r.status == OK,
        r.body@ == email@,
{
    Reply { status: OK, body: email }
}

} // verus!
