//! The ways in which a request fails, and what the client is told of each.

use vstd::prelude::*;
use vstd::string::*;
use crate::response::{plain, Response, ResponseView, Status};

verus! {

/// The request's parameters could not be reduced to one string per field.
#[derive(Clone, Copy, Debug, PartialEq, Eq, Structural)]
pub enum ParseError {
    /// The transport could not parse the parameter source.
    Malformed,
    /// Some field holds more than a single scalar value.
    NotScalar,
}

/// A field that a route requires is not among the request's parameters.
#[derive(Clone, Debug, PartialEq, Eq)]
pub enum BindError {
    /// The first required field, in declared order, that the map lacks.
    MissingField(String),
}

/// The request's path has no route.
#[derive(Clone, Copy, Debug, PartialEq, Eq, Structural)]
pub enum RouteError {
    NotFound,
}

/// Any failure of a request. Each ends the request at once.
#[derive(Clone, Debug, PartialEq, Eq)]
pub enum Fail {
    Parse(ParseError),
    Bind(BindError),
    Route(RouteError),
}

/// What the client is told when the parameters could not be parsed.
pub open spec fn parse_failed() -> Seq<char> {
    "Parameter parse failed"@
}

/// What the client is told when the field `name` is missing.
pub open spec fn absent(name: Seq<char>) -> Seq<char> {
    name + " was absent"@
}

/// What the client is told when the path has no route.
pub open spec fn no_route() -> Seq<char> {
    "No matching route found."@
}

impl BindError {
    /// The name of the missing field.
    pub open spec fn spec_field(self) -> Seq<char> {
        match self {
            BindError::MissingField(name) => name@,
        }
    }

    /// The name of the missing field.
    pub fn field(&self) -> (r: &String)
        ensures
            r@ == self.spec_field(),
    {
        match self {
            BindError::MissingField(name) => name,
        }
    }
}

impl Fail {
    /// The message that describes the failure.
    pub open spec fn spec_description(self) -> Seq<char> {
        match self {
            Fail::Parse(_) => parse_failed(),
            Fail::Bind(e) => absent(e.spec_field()),
            Fail::Route(_) => no_route(),
        }
    }

    /// The status under which the failure is reported.
    pub open spec fn spec_status(self) -> Status {
        match self {
            Fail::Parse(_) => Status::BadRequest,
            Fail::Bind(_) => Status::BadRequest,
            Fail::Route(_) => Status::NotFound,
        }
    }

    /// The response that reports the failure.
    pub open spec fn spec_response(self) -> ResponseView {
        plain(self.spec_status(), self.spec_description())
    }

    /// The message that describes the failure.
    pub fn description(&self) -> (r: String)
        ensures
            r@ == self.spec_description(),
    {
        match self {
            Fail::Parse(_) => String::from_str("Parameter parse failed"),
            Fail::Bind(e) => {
                let mut message = e.field().clone();
                message.append(" was absent");
                message
            },
            Fail::Route(_) => String::from_str("No matching route found."),
        }
    }

    /// The status under which the failure is reported.
    pub fn status(&self) -> (r: Status)
        ensures
            r == self.spec_status(),
    {
        match self {
            Fail::Parse(_) => Status::BadRequest,
            Fail::Bind(_) => Status::BadRequest,
            Fail::Route(_) => Status::NotFound,
        }
    }

    /// The response that reports the failure: its status, and its message as
    /// a plain-text body.
    pub fn response(&self) -> (r: Response)
        ensures
            r@ == self.spec_response(),
    {
        Response::plain_text(self.status(), self.description())
    }
}

} // verus!
