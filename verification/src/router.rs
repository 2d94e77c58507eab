//! Routing: which record and which greeting a path stands for, and the
//! whole way from a request to its response.

use vstd::prelude::*;
use vstd::string::*;
use crate::bind::{bind_spec, names_view};
use crate::extract::{extracted_view, get_map, get_map_spec, supplied_view};
use crate::fail::{absent, BindError, Fail, ParseError, RouteError};
use crate::param_map::ParameterMap;
use crate::record::{fields1, fields2, greeting1, greeting2, Params1, Params2};
use crate::response::{plain, Response, ResponseView, Status};

verus! {

/// A route of the service. Each has a path, the fields that it requires and
/// the greeting that it renders.
#[derive(Clone, Copy, Debug, PartialEq, Eq, Structural)]
pub enum Route {
    /// `/hello1`: a first and a last name.
    Hello1,
    /// `/hello2`: a first, a middle and a last name.
    Hello2,
}

/// The record that a route's binding made.
#[derive(Clone, Debug, PartialEq, Eq)]
pub enum TypedRecord {
    Hello1(Params1),
    Hello2(Params2),
}

impl Route {
    /// The path of the route.
    pub open spec fn spec_path(self) -> Seq<char> {
        match self {
            Route::Hello1 => "/hello1"@,
            Route::Hello2 => "/hello2"@,
        }
    }

    /// The names of the fields that the route requires, in declared order.
    pub open spec fn spec_required(self) -> Seq<Seq<char>> {
        match self {
            Route::Hello1 => fields1(),
            Route::Hello2 => fields2(),
        }
    }

    /// The greeting that the route renders from the values of its fields.
    pub open spec fn greeting(self, values: Seq<Seq<char>>) -> Seq<char> {
        match self {
            Route::Hello1 => greeting1(values[0], values[1]),
            Route::Hello2 => greeting2(values[0], values[1], values[2]),
        }
    }

    /// The route with the given path, if there is one.
    pub open spec fn spec_lookup(path: Seq<char>) -> Option<Route> {
        if path == Route::Hello1.spec_path() {
            Some(Route::Hello1)
        } else if path == Route::Hello2.spec_path() {
            Some(Route::Hello2)
        } else {
            None
        }
    }

    /// The path of the route.
    pub fn path(&self) -> (r: &'static str)
        ensures
            r@ == self.spec_path(),
    {
        match self {
            Route::Hello1 => "/hello1",
            Route::Hello2 => "/hello2",
        }
    }

    /// The names of the fields that the route requires, in declared order.
    pub fn required_fields(&self) -> (r: Vec<&'static str>)
        ensures
            names_view(r@) == self.spec_required(),
    {
        let r = match self {
            Route::Hello1 => vec!["first", "last"],
            Route::Hello2 => vec!["first", "middle", "last"],
        };
        assert(names_view(r@) =~= self.spec_required());
        r
    }

    /// The route with the given path, if there is one.
    pub fn lookup(path: &str) -> (r: Option<Route>)
        ensures
            r == Route::spec_lookup(path@),
    {
        let wanted = path.to_owned();
        if wanted == String::from_str("/hello1") {
            Some(Route::Hello1)
        } else if wanted == String::from_str("/hello2") {
            Some(Route::Hello2)
        } else {
            None
        }
    }

    /// Binds the fields that the route requires. The failure names the first
    /// of them, in declared order, that `map` lacks.
    pub fn bind(&self, map: &ParameterMap) -> (r: Result<TypedRecord, BindError>)
        ensures
            match r {
                Ok(record) => record.route() == *self && bind_spec(map@, self.spec_required())
                    == Ok::<Seq<Seq<char>>, Seq<char>>(record.values()),
                Err(e) => bind_spec(map@, self.spec_required()) == Err::<
                    Seq<Seq<char>>,
                    Seq<char>,
                >(e.spec_field()),
            },
    {
        match self {
            Route::Hello1 => match Params1::from_map(map) {
                Ok(p) => Ok(TypedRecord::Hello1(p)),
                Err(e) => Err(e),
            },
            Route::Hello2 => match Params2::from_map(map) {
                Ok(p) => Ok(TypedRecord::Hello2(p)),
                Err(e) => Err(e),
            },
        }
    }
}

impl TypedRecord {
    /// The route whose binding makes such a record.
    pub open spec fn route(&self) -> Route {
        match self {
            TypedRecord::Hello1(_) => Route::Hello1,
            TypedRecord::Hello2(_) => Route::Hello2,
        }
    }

    /// The values of the record's fields, in declared order.
    pub open spec fn values(&self) -> Seq<Seq<char>> {
        match self {
            TypedRecord::Hello1(p) => p.values(),
            TypedRecord::Hello2(p) => p.values(),
        }
    }
}

/// The response to a request that was bound: the route's greeting, as
/// plain text, with the status `Okay`.
pub open spec fn render_spec(route: Route, values: Seq<Seq<char>>) -> ResponseView {
    plain(Status::Okay, route.greeting(values))
}

/// Renders the greeting for a record.
pub fn hello(record: &TypedRecord) -> (r: Response)
    ensures
        r@ == render_spec(record.route(), record.values()),
{
    match record {
        TypedRecord::Hello1(p) => p.run(),
        TypedRecord::Hello2(p) => p.run(),
    }
}

/// What binding and rendering on a route give: the greeting, or the name
/// of the first required field that is missing.
pub open spec fn handle_spec(route: Route, map: Map<Seq<char>, Seq<char>>) -> Result<
    ResponseView,
    Seq<char>,
> {
    match bind_spec(map, route.spec_required()) {
        Ok(values) => Ok(render_spec(route, values)),
        Err(name) => Err(name),
    }
}

/// Binds and renders on a route: the greeting, or the failure of the
/// binding.
pub fn handle(route: Route, map: &ParameterMap) -> (r: Result<Response, Fail>)
    ensures
        match r {
            Ok(response) => handle_spec(route, map@) == Ok::<ResponseView, Seq<char>>(response@),
            Err(fail) => fail is Bind && handle_spec(route, map@) == Err::<
                ResponseView,
                Seq<char>,
            >(fail->Bind_0.spec_field()),
        },
{
    match route.bind(map) {
        Ok(record) => Ok(hello(&record)),
        Err(e) => Err(Fail::Bind(e)),
    }
}

/// The response to a request with the given path, whose parameters were
/// extracted as given.
pub open spec fn respond_spec(
    path: Seq<char>,
    extracted: Result<Map<Seq<char>, Seq<char>>, ParseError>,
) -> ResponseView {
    match Route::spec_lookup(path) {
        None => Fail::Route(RouteError::NotFound).spec_response(),
        Some(route) => match extracted {
            Err(e) => Fail::Parse(e).spec_response(),
            Ok(map) => match handle_spec(route, map) {
                Err(name) => plain(Status::BadRequest, absent(name)),
                Ok(response) => response,
            },
        },
    }
}

/// The response to a request with the given path, once its parameters were
/// extracted or found unparsable. A path without a route fails first,
/// whatever the parameters; then a failed extraction; then a missing field.
pub fn respond(path: &str, extracted: Result<ParameterMap, ParseError>) -> (r: Response)
    ensures
        r@ == respond_spec(path@, extracted_view(extracted)),
{
    let route = match Route::lookup(path) {
        Some(route) => route,
        None => {
            return Fail::Route(RouteError::NotFound).response();
        },
    };
    let map = match extracted {
        Ok(map) => map,
        Err(e) => {
            return Fail::Parse(e).response();
        },
    };
    match handle(route, &map) {
        Ok(response) => response,
        Err(fail) => fail.response(),
    }
}

/// The response to a request with the given path and parameters.
/// `supplied` holds the name of each name/value pair of the request, one
/// name for each pair; `parsed` is what the transport made of the pairs, or
/// `None` where it could not parse them.
pub fn dispatch(path: &str, supplied: &Vec<String>, parsed: Option<&params::Map>) -> (r: Response)
    ensures
        r@ == respond_spec(path@, get_map_spec(supplied_view(supplied@), parsed)),
{
    respond(path, get_map(supplied, parsed))
}

} // verus!
