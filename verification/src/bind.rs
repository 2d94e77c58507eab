//! Binding: the values of the fields that a route requires, or the first
//! field that is missing.

use vstd::prelude::*;
use vstd::string::*;
use crate::fail::BindError;
use crate::param_map::ParameterMap;

verus! {

/// The views of a list of field names.
pub open spec fn names_view(names: Seq<&str>) -> Seq<Seq<char>> {
    names.map_values(|n: &str| n@)
}

/// The views of a list of values.
pub open spec fn values_view(values: Seq<String>) -> Seq<Seq<char>> {
    values.map_values(|v: String| v@)
}

/// The map has every one of the required fields.
pub open spec fn all_present(map: Map<Seq<char>, Seq<char>>, required: Seq<Seq<char>>) -> bool {
    forall|i: int| 0 <= i < required.len() ==> map.contains_key(#[trigger] required[i])
}

/// The field at `i` is the first of the required fields that the map lacks.
pub open spec fn is_first_missing(
    map: Map<Seq<char>, Seq<char>>,
    required: Seq<Seq<char>>,
    i: int,
) -> bool {
    &&& 0 <= i < required.len()
    &&& !map.contains_key(required[i])
    &&& forall|j: int| 0 <= j < i ==> map.contains_key(#[trigger] required[j])
}

/// The index of the first of the required fields that the map lacks, if it
/// lacks one.
pub open spec fn first_missing(
    map: Map<Seq<char>, Seq<char>>,
    required: Seq<Seq<char>>,
) -> Option<int> {
    if all_present(map, required) {
        None
    } else {
        Some(choose|i: int| is_first_missing(map, required, i))
    }
}

/// What binding gives: the values of the required fields in declared order,
/// or the name of the first that is missing.
pub open spec fn bind_spec(
    map: Map<Seq<char>, Seq<char>>,
    required: Seq<Seq<char>>,
) -> Result<Seq<Seq<char>>, Seq<char>> {
    match first_missing(map, required) {
        None => Ok(required.map_values(|n: Seq<char>| map[n])),
        Some(i) => Err(required[i]),
    }
}

/// The result of a binding as a mathematical value.
pub open spec fn bound_view(r: Result<Vec<String>, BindError>) -> Result<
    Seq<Seq<char>>,
    Seq<char>,
> {
    match r {
        Ok(values) => Ok(values_view(values@)),
        Err(e) => Err(e.spec_field()),
    }
}

/// No two fields are the first missing one.
pub proof fn lemma_first_missing_unique(
    map: Map<Seq<char>, Seq<char>>,
    required: Seq<Seq<char>>,
    i: int,
)
    requires
        is_first_missing(map, required, i),
    ensures
        first_missing(map, required) == Some(i),
{
    let c = choose|c: int| is_first_missing(map, required, c);
    assert(!all_present(map, required));
    if c < i {
        assert(map.contains_key(required[c]));
    } else if i < c {
        assert(map.contains_key(required[i]));
    }
}

/// Where a required field is missing, one of them is the first.
pub proof fn lemma_first_missing_exists(map: Map<Seq<char>, Seq<char>>, required: Seq<Seq<char>>)
    requires
        !all_present(map, required),
    ensures
        first_missing(map, required) is Some,
        is_first_missing(map, required, first_missing(map, required)->Some_0),
{
    let k = choose|k: int| 0 <= k < required.len() && !map.contains_key(#[trigger] required[k]);
    lemma_missing_before(map, required, k);
}

proof fn lemma_missing_before(map: Map<Seq<char>, Seq<char>>, required: Seq<Seq<char>>, k: int)
    requires
        0 <= k < required.len(),
        !map.contains_key(required[k]),
    ensures
        exists|i: int| is_first_missing(map, required, i),
    decreases k,
{
    if forall|j: int| 0 <= j < k ==> map.contains_key(#[trigger] required[j]) {
        assert(is_first_missing(map, required, k));
    } else {
        let j = choose|j: int| 0 <= j < k && !map.contains_key(#[trigger] required[j]);
        lemma_missing_before(map, required, j);
    }
}

/// The value of a looked-up field, or the failure that names the field when
/// the lookup found nothing.
pub fn get(m: Option<&String>, name: &str) -> (r: Result<String, BindError>)
    ensures
        match r {
            Ok(value) => m matches Some(found) && value@ == found@,
            Err(e) => m.is_none() && e.spec_field() == name@,
        },
{
    match m {
        Some(found) => Ok(found.clone()),
        None => Err(BindError::MissingField(String::from_str(name))),
    }
}

/// Looks up each required field in `map`, in declared order. Fields of the
/// map that are not required are ignored.
pub fn bind(map: &ParameterMap, required: &[&str]) -> (r: Result<Vec<String>, BindError>)
    ensures
        bound_view(r) == bind_spec(map@, names_view(required@)),
{
    let ghost names = names_view(required@);
    let mut values: Vec<String> = Vec::new();
    let mut i: usize = 0;
    while i < required.len()
        invariant
            0 <= i <= required@.len(),
            names == names_view(required@),
            values@.len() == i,
            forall|j: int| 0 <= j < i ==> map@.contains_key(#[trigger] names[j]),
            forall|j: int| 0 <= j < i ==> (#[trigger] values@[j])@ == map@[names[j]],
        decreases required@.len() - i,
    {
        let name = required[i];
        match get(map.get(name), name) {
            Ok(value) => {
                values.push(value);
            },
            Err(e) => {
                proof {
                    assert(names[i as int] == name@);
                    lemma_first_missing_unique(map@, names, i as int);
                }
                return Err(e);
            },
        }
        i += 1;
    }
    proof {
        assert(all_present(map@, names));
        assert(values_view(values@) =~= names.map_values(|n: Seq<char>| map@[n]));
    }
    Ok(values)
}

} // verus!
