//! Answers to requests.

use vstd::prelude::*;

verus! {

/// An answer: an HTTP status and a text.
#[derive(Debug)]
pub struct Reply {
    pub status: u16,
    pub body: String,
}

impl View for Reply {
    type V = (u16, Seq<char>);

    open spec fn view(&self) -> (u16, Seq<char>) {
        (self.status, self.body@)
    }
}

/// The database did not do what it was asked for.
#[derive(Clone, Copy, Debug, PartialEq, Eq, Structural)]
pub struct DbFailure;

/// What came of asking the database for something.
pub type DbResult<T> = Result<T, DbFailure>;

pub const OK: u16 = 200;

pub const BAD_REQUEST: u16 = 400;

pub const UNAUTHORIZED: u16 = 401;

pub const FORBIDDEN: u16 = 403;

pub const CONFLICT: u16 = 409;

pub const TOO_MANY_REQUESTS: u16 = 429;

pub const INTERNAL_SERVER_ERROR: u16 = 500;

pub const BAD_GATEWAY: u16 = 502;

/// The answer with the given status and text.
pub fn reply(status: u16, body: &str) -> (r: Reply)
    ensures
        r@ == (status, body@),
{
    Reply { status, body: body.to_owned() }
}

/// The answer to a request that the database failed.
pub open spec fn db_error() -> (u16, Seq<char>) {
    (INTERNAL_SERVER_ERROR, "db error"@)
}

/// The answer to a request that the database failed.
pub fn db_error_reply() -> (r: Reply)
    ensures
        r@ == db_error(),
{
    reply(INTERNAL_SERVER_ERROR, "db error")
}

/// The answer that tells whether the database did what it was asked for.
pub open spec fn outcome<T>(done: DbResult<T>, success: Seq<char>) -> (u16, Seq<char>) {
    if done is Ok {
        (OK, success)
    } else {
        db_error()
    }
}

/// The answer that tells whether the database did what it was asked for.
pub fn outcome_reply(done: DbResult<()>, success: &str) -> (r: Reply)
    ensures
        r@ == outcome(done, success@),
{
    match done {
        Ok(_) => reply(OK, success),
        Err(_) => db_error_reply(),
    }
}

} // verus!
