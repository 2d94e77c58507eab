//! The responses that the service gives: a status, a content type and a body.

use vstd::prelude::*;
use vstd::string::*;

verus! {

/// The outcome of a request, as an HTTP status.
#[derive(Clone, Copy, Debug, PartialEq, Eq, Structural)]
pub enum Status {
    /// The request was answered: 200.
    Okay,
    /// The request's parameters were refused: 400.
    BadRequest,
    /// No route has the request's path: 404.
    NotFound,
}

impl Status {
    /// The status as a number.
    pub open spec fn spec_code(self) -> int {
        match self {
            Status::Okay => 200,
            Status::BadRequest => 400,
            Status::NotFound => 404,
        }
    }

    /// The status as a number.
    pub fn code(self) -> (r: u16)
        ensures
            r == self.spec_code(),
    {
        match self {
            Status::Okay => 200,
            Status::BadRequest => 400,
            Status::NotFound => 404,
        }
    }
}

/// The content type of every response.
pub open spec fn text_plain() -> Seq<char> {
    "text/plain; charset=utf-8"@
}

/// A response, ready for the transport to write out.
#[derive(Clone, Debug, PartialEq, Eq)]
pub struct Response {
    pub status: Status,
    pub content_type: String,
    pub body: String,
}

/// A response as a mathematical value.
pub struct ResponseView {
    pub status: Status,
    pub content_type: Seq<char>,
    pub body: Seq<char>,
}

impl View for Response {
    type V = ResponseView;

    open spec fn view(&self) -> ResponseView {
        ResponseView { status: self.status, content_type: self.content_type@, body: self.body@ }
    }
}

/// The plain-text response with the given status and body.
pub open spec fn plain(status: Status, body: Seq<char>) -> ResponseView {
    ResponseView { status, content_type: text_plain(), body }
}

impl Response {
    /// The plain-text response with the given status and body.
    pub fn plain_text(status: Status, body: String) -> (r: Response)
        ensures
            r@ == plain(status, body@),
    {
        Response { status, content_type: String::from_str("text/plain; charset=utf-8"), body }
    }
}

} // verus!
