use hello_params::fail::{BindError, Fail, ParseError, RouteError};
use hello_params::param_map::ParameterMap;
use hello_params::response::{Response, Status};
use hello_params::router::{respond, Route};

fn s(text: &str) -> String {
    String::from(text)
}

fn plain(status: Status, body: &str) -> Response {
    Response { status, content_type: s("text/plain; charset=utf-8"), body: s(body) }
}

fn map_of(fields: &[(&str, &str)]) -> ParameterMap {
    let mut m = ParameterMap::new();
    for (name, value) in fields {
        m.insert(s(name), s(value));
    }
    m
}

#[test]
fn status_codes() {
    assert_eq!(Status::Okay.code(), 200);
    assert_eq!(Status::BadRequest.code(), 400);
    assert_eq!(Status::NotFound.code(), 404);
}

#[test]
fn plain_text_response() {
    assert_eq!(Response::plain_text(Status::Okay, s("hi")), plain(Status::Okay, "hi"));
    assert_eq!(Response::plain_text(Status::NotFound, s("")), plain(Status::NotFound, ""));
}

#[test]
fn lookup_finds_the_two_routes() {
    assert_eq!(Route::lookup("/hello1"), Some(Route::Hello1));
    assert_eq!(Route::lookup("/hello2"), Some(Route::Hello2));
}

#[test]
fn lookup_finds_nothing_else() {
    for path in ["", "/", "/hello", "/hello3", "/hello1/", "hello1", "/Hello1", "/hello1?first=A"] {
        assert_eq!(Route::lookup(path), None);
    }
}

#[test]
fn each_route_is_found_by_its_path() {
    for route in [Route::Hello1, Route::Hello2] {
        assert_eq!(Route::lookup(route.path()), Some(route));
    }
    assert_eq!(Route::Hello1.path(), "/hello1");
    assert_eq!(Route::Hello2.path(), "/hello2");
}

#[test]
fn required_fields_in_declared_order() {
    assert_eq!(Route::Hello1.required_fields(), vec!["first", "last"]);
    assert_eq!(Route::Hello2.required_fields(), vec!["first", "middle", "last"]);
}

#[test]
fn parse_failures_are_bad_requests() {
    for e in [ParseError::Malformed, ParseError::NotScalar] {
        let fail = Fail::Parse(e);
        assert_eq!(fail.description(), "Parameter parse failed");
        assert_eq!(fail.status(), Status::BadRequest);
        assert_eq!(fail.response(), plain(Status::BadRequest, "Parameter parse failed"));
    }
}

#[test]
fn missing_field_is_a_bad_request_that_names_it() {
    let fail = Fail::Bind(BindError::MissingField(s("first")));
    assert_eq!(fail.description(), "first was absent");
    assert_eq!(fail.status(), Status::BadRequest);
    assert_eq!(fail.response(), plain(Status::BadRequest, "first was absent"));
}

#[test]
fn missing_route_is_not_found() {
    let fail = Fail::Route(RouteError::NotFound);
    assert_eq!(fail.description(), "No matching route found.");
    assert_eq!(fail.status(), Status::NotFound);
    assert_eq!(fail.response(), plain(Status::NotFound, "No matching route found."));
}

#[test]
fn respond_greets() {
    let m = map_of(&[("first", "Ann"), ("last", "Lee")]);
    assert_eq!(respond("/hello1", Ok(m)), plain(Status::Okay, "Hello Ann, Lee!"));
}

#[test]
fn respond_reports_a_failed_extraction() {
    let expected = plain(Status::BadRequest, "Parameter parse failed");
    assert_eq!(respond("/hello1", Err(ParseError::Malformed)), expected);
    assert_eq!(respond("/hello2", Err(ParseError::NotScalar)), expected);
}

#[test]
fn respond_reports_the_first_missing_field() {
    let m = map_of(&[("last", "Lee"), ("zip", "1")]);
    assert_eq!(respond("/hello2", Ok(m)), plain(Status::BadRequest, "first was absent"));
}

#[test]
fn respond_looks_at_the_path_first() {
    let expected = plain(Status::NotFound, "No matching route found.");
    assert_eq!(respond("/nowhere", Err(ParseError::Malformed)), expected);
    assert_eq!(respond("/nowhere", Ok(ParameterMap::new())), expected);
    assert_eq!(respond("/nowhere", Ok(map_of(&[("first", "A"), ("last", "B")]))), expected);
}

#[test]
fn respond_ignores_fields_that_the_route_does_not_require() {
    let bare = map_of(&[("first", "Ann"), ("last", "Lee")]);
    let more = map_of(&[("x", "1"), ("first", "Ann"), ("middle", "M"), ("last", "Lee")]);
    assert_eq!(respond("/hello1", Ok(more)), respond("/hello1", Ok(bare)));
}
