//! Answers, as plain values: a status, where to go next, and a body.

use vstd::prelude::*;

verus! {

pub const OK: u16 = 200;

pub const FOUND: u16 = 302;

pub const BAD_REQUEST: u16 = 400;

pub const NOT_FOUND: u16 = 404;

pub const METHOD_NOT_ALLOWED: u16 = 405;

pub const INTERNAL_SERVER_ERROR: u16 = 500;

/// The answer to one request.
#[derive(Debug, Clone, PartialEq, Eq)]
pub struct Response {
    pub status: u16,
    /// The `Location` header, where there is one.
    pub location: Option<String>,
    pub body: String,
}

/// An answer as specifications see it.
pub ghost struct ResponseView {
    pub status: u16,
    pub location: Option<Seq<char>>,
    pub body: Seq<char>,
}

impl View for Response {
    type V = ResponseView;

    open spec fn view(&self) -> ResponseView {
        ResponseView {
            status: self.status,
            location: match self.location {
                Some(location) => Some(location@),
                None => None,
            },
            body: self.body@,
        }
    }
}

/// The page behind a successful request.
pub open spec fn page(body: Seq<char>) -> ResponseView {
    ResponseView { status: OK, location: None, body }
}

/// An answer that sends the client on to `location`.
pub open spec fn redirect(location: Seq<char>) -> ResponseView {
    ResponseView { status: FOUND, location: Some(location), body: Seq::empty() }
}

/// An answer that is a status and a text.
pub open spec fn plain(status: u16, body: Seq<char>) -> ResponseView {
    ResponseView { status, location: None, body }
}

impl Response {
    /// 200 with the given body.
    pub fn ok(body: String) -> (response: Response)
        ensures
            response@ == page(body@),
    {
        Response { status: OK, location: None, body }
    }

    /// The given status with the given body, and no `Location`.
    pub fn with_status(status: u16, body: String) -> (response: Response)
        ensures
            response@ == plain(status, body@),
    {
        Response { status, location: None, body }
    }
}

} // verus!
