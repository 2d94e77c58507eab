//! The records that the routes work on, and the greetings rendered from
//! them.

use vstd::prelude::*;
use vstd::string::*;
use crate::bind::{bind_spec, get, lemma_first_missing_unique};
use crate::fail::BindError;
use crate::param_map::ParameterMap;
use crate::response::{plain, Response, Status};

verus! {

/// The greeting for a first and a last name.
pub open spec fn greeting1(first: Seq<char>, last: Seq<char>) -> Seq<char> {
    "Hello "@ + first + ", "@ + last + "!"@
}

/// The greeting for a first, a middle and a last name.
pub open spec fn greeting2(first: Seq<char>, middle: Seq<char>, last: Seq<char>) -> Seq<char> {
    "Hello "@ + first + ", "@ + middle + ", "@ + last + "!"@
}

/// The names of the fields of a [`Params1`], in declared order.
pub open spec fn fields1() -> Seq<Seq<char>> {
    seq!["first"@, "last"@]
}

/// The names of the fields of a [`Params2`], in declared order.
pub open spec fn fields2() -> Seq<Seq<char>> {
    seq!["first"@, "middle"@, "last"@]
}

/// A first and a last name. Fixed once made.
#[derive(Clone, Debug, PartialEq, Eq)]
pub struct Params1 {
    first: String,
    last: String,
}

/// A first, a middle and a last name. Fixed once made.
#[derive(Clone, Debug, PartialEq, Eq)]
pub struct Params2 {
    first: String,
    middle: String,
    last: String,
}

impl Params1 {
    /// The values of the fields, in declared order.
    pub closed spec fn values(&self) -> Seq<Seq<char>> {
        seq![self.first@, self.last@]
    }

    /// The record of the two names.
    pub fn new(first: String, last: String) -> (r: Params1)
        ensures
            r.values() == seq![first@, last@],
    {
        Params1 { first, last }
    }

    /// The first name.
    pub fn first(&self) -> (r: &String)
        ensures
            r@ == self.values()[0],
    {
        &self.first
    }

    /// The last name.
    pub fn last(&self) -> (r: &String)
        ensures
            r@ == self.values()[1],
    {
        &self.last
    }

    /// Binds the fields `first` and `last` of `map`. The failure names the
    /// first of the two that `map` lacks.
    pub fn from_map(map: &ParameterMap) -> (r: Result<Params1, BindError>)
        ensures
            match r {
                Ok(p) => bind_spec(map@, fields1()) == Ok::<Seq<Seq<char>>, Seq<char>>(
                    p.values(),
                ),
                Err(e) => bind_spec(map@, fields1()) == Err::<Seq<Seq<char>>, Seq<char>>(
                    e.spec_field(),
                ),
            },
    {
        let first = match get(map.get("first"), "first") {
            Ok(value) => value,
            Err(e) => {
                proof {
                    lemma_first_missing_unique(map@, fields1(), 0);
                }
                return Err(e);
            },
        };
        let last = match get(map.get("last"), "last") {
            Ok(value) => value,
            Err(e) => {
                proof {
                    lemma_first_missing_unique(map@, fields1(), 1);
                }
                return Err(e);
            },
        };
        let p = Params1 { first, last };
        proof {
            assert(p.values() =~= fields1().map_values(|n: Seq<char>| map@[n]));
        }
        Ok(p)
    }

    /// The greeting for this record.
    pub fn run(&self) -> (r: Response)
        ensures
            r@ == plain(Status::Okay, greeting1(self.values()[0], self.values()[1])),
    {
        let mut body = String::from_str("Hello ");
        body.append(self.first.as_str());
        body.append(", ");
        body.append(self.last.as_str());
        body.append("!");
        Response::plain_text(Status::Okay, body)
    }
}

impl Params2 {
    /// The values of the fields, in declared order.
    pub closed spec fn values(&self) -> Seq<Seq<char>> {
        seq![self.first@, self.middle@, self.last@]
    }

    /// The record of the three names.
    pub fn new(first: String, middle: String, last: String) -> (r: Params2)
        ensures
            r.values() == seq![first@, middle@, last@],
    {
        Params2 { first, middle, last }
    }

    /// The first name.
    pub fn first(&self) -> (r: &String)
        ensures
            r@ == self.values()[0],
    {
        &self.first
    }

    /// The middle name.
    pub fn middle(&self) -> (r: &String)
        ensures
            r@ == self.values()[1],
    {
        &self.middle
    }

    /// The last name.
    pub fn last(&self) -> (r: &String)
        ensures
            r@ == self.values()[2],
    {
        &self.last
    }

    /// Binds the fields `first`, `middle` and `last` of `map`. The failure
    /// names the first of the three that `map` lacks.
    pub fn from_map(map: &ParameterMap) -> (r: Result<Params2, BindError>)
        ensures
            match r {
                Ok(p) => bind_spec(map@, fields2()) == Ok::<Seq<Seq<char>>, Seq<char>>(
                    p.values(),
                ),
                Err(e) => bind_spec(map@, fields2()) == Err::<Seq<Seq<char>>, Seq<char>>(
                    e.spec_field(),
                ),
            },
    {
        let first = match get(map.get("first"), "first") {
            Ok(value) => value,
            Err(e) => {
                proof {
                    lemma_first_missing_unique(map@, fields2(), 0);
                }
                return Err(e);
            },
        };
        let middle = match get(map.get("middle"), "middle") {
            Ok(value) => value,
            Err(e) => {
                proof {
                    lemma_first_missing_unique(map@, fields2(), 1);
                }
                return Err(e);
            },
        };
        let last = match get(map.get("last"), "last") {
            Ok(value) => value,
            Err(e) => {
                proof {
                    lemma_first_missing_unique(map@, fields2(), 2);
                }
                return Err(e);
            },
        };
        let p = Params2 { first, middle, last };
        proof {
            assert(p.values() =~= fields2().map_values(|n: Seq<char>| map@[n]));
        }
        Ok(p)
    }

    /// The greeting for this record.
    pub fn run(&self) -> (r: Response)
        ensures
            r@ == plain(
                Status::Okay,
                greeting2(self.values()[0], self.values()[1], self.values()[2]),
            ),
    {
        let mut body = String::from_str("Hello ");
        body.append(self.first.as_str());
        body.append(", ");
        body.append(self.middle.as_str());
        body.append(", ");
        body.append(self.last.as_str());
        body.append("!");
        Response::plain_text(Status::Okay, body)
    }
}

} // verus!
