//! What holds of every request, proved from the definitions of the
//! responses.

use vstd::prelude::*;
use crate::bind::{
    all_present,
    bind_spec,
    first_missing,
    is_first_missing,
    lemma_first_missing_exists,
    lemma_first_missing_unique,
};
use crate::extract::{
    all_scalar,
    entry_names,
    from_strict_spec,
    get_map_spec,
    scalar_pairs,
    strict_spec,
};
use crate::fail::{absent, no_route, parse_failed, ParseError};
use crate::param_map::{
    has_repeated_name,
    lemma_map_of_push,
    lemma_new_name_repeats_nothing,
    pair_names,
    pairs_to_map,
};
use crate::record::{greeting1, greeting2};
use crate::response::{plain, Status};
use crate::router::{respond_spec, Route};

verus! {

/// Each route is the one that its own path leads to.
pub proof fn law_route_is_found_by_its_path(route: Route)
    ensures
        Route::spec_lookup(route.spec_path()) == Some(route),
{
    reveal_strlit("/hello1");
    reveal_strlit("/hello2");
    assert("/hello1"@[6] != "/hello2"@[6]);
}

/// On every route, a request that supplies every required field is
/// answered with the status `Okay` and the route's greeting, in plain text,
/// with the supplied values in declared order. Any string is a value, the
/// empty one too.
pub proof fn law_complete_request_is_greeted(route: Route, map: Map<Seq<char>, Seq<char>>)
    requires
        all_present(map, route.spec_required()),
    ensures
        respond_spec(route.spec_path(), Ok(map)) == plain(
            Status::Okay,
            match route {
                Route::Hello1 => greeting1(map["first"@], map["last"@]),
                Route::Hello2 => greeting2(map["first"@], map["middle"@], map["last"@]),
            },
        ),
        respond_spec(route.spec_path(), Ok(map)).status.spec_code() == 200,
{
    law_route_is_found_by_its_path(route);
}

/// On every route, a request that lacks a required field is answered with
/// the status `BadRequest` and a body that names the first field, in
/// declared order, that it lacks: whether it lacks one field or several.
pub proof fn law_missing_field_is_named(route: Route, map: Map<Seq<char>, Seq<char>>, i: int)
    requires
        is_first_missing(map, route.spec_required(), i),
    ensures
        respond_spec(route.spec_path(), Ok(map)) == plain(
            Status::BadRequest,
            absent(route.spec_required()[i]),
        ),
        respond_spec(route.spec_path(), Ok(map)).status.spec_code() == 400,
{
    law_route_is_found_by_its_path(route);
    lemma_first_missing_unique(map, route.spec_required(), i);
}

/// On every route, a request is either greeted or told of exactly one
/// missing field, the first one.
pub proof fn law_incomplete_request_is_refused(route: Route, map: Map<Seq<char>, Seq<char>>)
    requires
        !all_present(map, route.spec_required()),
    ensures
        first_missing(map, route.spec_required()) is Some,
        is_first_missing(
            map,
            route.spec_required(),
            first_missing(map, route.spec_required())->Some_0,
        ),
        respond_spec(route.spec_path(), Ok(map)) == plain(
            Status::BadRequest,
            absent(route.spec_required()[first_missing(map, route.spec_required())->Some_0]),
        ),
{
    lemma_first_missing_exists(map, route.spec_required());
    law_missing_field_is_named(
        route,
        map,
        first_missing(map, route.spec_required())->Some_0,
    );
}

/// Binding looks at the required fields only: two maps that agree on them
/// bind alike.
pub proof fn law_binding_reads_required_fields_only(
    a: Map<Seq<char>, Seq<char>>,
    b: Map<Seq<char>, Seq<char>>,
    required: Seq<Seq<char>>,
)
    requires
        forall|i: int|
            0 <= i < required.len() ==> a.contains_key(#[trigger] required[i]) == b.contains_key(
                required[i],
            ),
        forall|i: int|
            0 <= i < required.len() && a.contains_key(#[trigger] required[i]) ==> a[required[i]]
                == b[required[i]],
    ensures
        bind_spec(a, required) == bind_spec(b, required),
{
    if all_present(a, required) {
        assert(all_present(b, required));
        assert(required.map_values(|n: Seq<char>| a[n]) =~= required.map_values(
            |n: Seq<char>| b[n],
        ));
    } else {
        lemma_first_missing_exists(a, required);
        let i = first_missing(a, required)->Some_0;
        assert(is_first_missing(b, required, i));
        lemma_first_missing_unique(b, required, i);
    }
}

/// The response looks at the fields that the route requires and at no
/// others: two requests to one path whose maps agree on them are answered
/// alike.
pub proof fn law_response_reads_required_fields_only(
    path: Seq<char>,
    a: Map<Seq<char>, Seq<char>>,
    b: Map<Seq<char>, Seq<char>>,
)
    requires
        Route::spec_lookup(path) matches Some(route) ==> forall|i: int|
            0 <= i < route.spec_required().len() ==> {
                &&& a.contains_key(#[trigger] route.spec_required()[i]) == b.contains_key(
                    route.spec_required()[i],
                )
                &&& a.contains_key(route.spec_required()[i]) ==> a[route.spec_required()[i]]
                    == b[route.spec_required()[i]]
            },
    ensures
        respond_spec(path, Ok(a)) == respond_spec(path, Ok(b)),
{
    if let Some(route) = Route::spec_lookup(path) {
        law_binding_reads_required_fields_only(a, b, route.spec_required());
    }
}

/// A field that the route does not require never changes the response,
/// whether it is added, given another value or taken away.
pub proof fn law_unrelated_field_changes_nothing(
    path: Seq<char>,
    map: Map<Seq<char>, Seq<char>>,
    name: Seq<char>,
    value: Seq<char>,
)
    requires
        Route::spec_lookup(path) matches Some(route) ==> !route.spec_required().contains(name),
    ensures
        respond_spec(path, Ok(map.insert(name, value))) == respond_spec(path, Ok(map)),
        respond_spec(path, Ok(map.remove(name))) == respond_spec(path, Ok(map)),
{
    if let Some(route) = Route::spec_lookup(path) {
        let required = route.spec_required();
        assert forall|i: int| 0 <= i < required.len() implies #[trigger] required[i] != name by {
            assert(required.contains(required[i]));
        }
        law_binding_reads_required_fields_only(map.insert(name, value), map, required);
        law_binding_reads_required_fields_only(map.remove(name), map, required);
    }
}

/// One more field with a single string, under a name that the request
/// does not have yet and that the route does not require, never changes the
/// response to the request: neither where the other fields could be
/// extracted nor where they could not.
pub proof fn law_unrelated_scalar_field_changes_nothing(
    path: Seq<char>,
    entries: Seq<(Seq<char>, Option<Seq<char>>)>,
    name: Seq<char>,
    value: Seq<char>,
)
    requires
        Route::spec_lookup(path) matches Some(route) ==> !route.spec_required().contains(name),
        !entry_names(entries).contains(name),
    ensures
        respond_spec(path, strict_spec(entries.push((name, Some(value))))) == respond_spec(
            path,
            strict_spec(entries),
        ),
{
    let more = entries.push((name, Some(value)));
    let pairs = scalar_pairs(entries);
    assert(pair_names(pairs) =~= entry_names(entries));
    assert(pair_names(scalar_pairs(more)) =~= entry_names(more));
    assert(scalar_pairs(more) =~= pairs.push((name, value)));
    lemma_new_name_repeats_nothing(pairs, name, value);
    if all_scalar(entries) {
        assert(all_scalar(more));
        if !has_repeated_name(entry_names(entries)) {
            lemma_map_of_push(pairs, name, value);
            law_unrelated_field_changes_nothing(path, pairs_to_map(pairs), name, value);
        }
    } else {
        let i = choose|i: int| 0 <= i < entries.len() && (#[trigger] entries[i]).1 is None;
        assert(more[i].1 is None);
    }
}

/// On every route, a request that supplies some name more than once is
/// answered with the status `BadRequest` and the message of a failed parse,
/// whatever the values are and whatever the transport made of them. None of
/// the values is picked.
pub proof fn law_repeated_name_is_refused(
    route: Route,
    supplied: Seq<Seq<char>>,
    parsed: Option<&params::Map>,
)
    requires
        has_repeated_name(supplied),
    ensures
        respond_spec(route.spec_path(), get_map_spec(supplied, parsed)) == plain(
            Status::BadRequest,
            parse_failed(),
        ),
        respond_spec(route.spec_path(), get_map_spec(supplied, parsed)).status.spec_code() == 400,
{
    law_route_is_found_by_its_path(route);
}

/// On every route, pairs of which two have one name are answered with the
/// status `BadRequest` and the message of a failed parse.
pub proof fn law_repeated_pair_is_refused(route: Route, pairs: Seq<(Seq<char>, Seq<char>)>)
    requires
        has_repeated_name(pair_names(pairs)),
    ensures
        respond_spec(route.spec_path(), from_strict_spec(Some(pairs))) == plain(
            Status::BadRequest,
            parse_failed(),
        ),
{
    law_route_is_found_by_its_path(route);
}

/// A request to a path that has no route is answered with the status
/// `NotFound`, whatever its parameters are and whether or not they could be
/// extracted.
pub proof fn law_unknown_path_is_not_found(
    path: Seq<char>,
    extracted: Result<Map<Seq<char>, Seq<char>>, ParseError>,
)
    requires
        forall|route: Route| route.spec_path() != path,
    ensures
        respond_spec(path, extracted) == plain(Status::NotFound, no_route()),
        respond_spec(path, extracted).status.spec_code() == 404,
{
    assert(Route::Hello1.spec_path() != path);
    assert(Route::Hello2.spec_path() != path);
}

/// On every route, a request with a field that holds anything but a single
/// scalar is answered with the status `BadRequest` and the message of a
/// failed parse, whatever its other fields hold.
pub proof fn law_non_scalar_field_is_refused(
    route: Route,
    entries: Seq<(Seq<char>, Option<Seq<char>>)>,
    i: int,
)
    requires
        0 <= i < entries.len(),
        entries[i].1 is None,
    ensures
        strict_spec(entries) == Err::<Map<Seq<char>, Seq<char>>, ParseError>(
            ParseError::NotScalar,
        ),
        respond_spec(route.spec_path(), strict_spec(entries)) == plain(
            Status::BadRequest,
            parse_failed(),
        ),
        respond_spec(route.spec_path(), strict_spec(entries)).status.spec_code() == 400,
{
    law_route_is_found_by_its_path(route);
}

/// On every route, a request whose parameters the transport could not parse
/// is answered with the status `BadRequest` and the message of a failed
/// parse.
pub proof fn law_unparsable_request_is_refused(route: Route, e: ParseError)
    ensures
        respond_spec(route.spec_path(), Err(e)) == plain(Status::BadRequest, parse_failed()),
{
    law_route_is_found_by_its_path(route);
}

} // verus!
