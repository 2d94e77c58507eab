//! Extraction: from the parameters that the transport parsed to a map with
//! one string for each field.

use vstd::prelude::*;
use crate::fail::ParseError;
use crate::param_map::{has_repeated_name, pair_names, pairs_to_map, pairs_view, ParameterMap};

verus! {

/// The parameters of a request as the transport parsed them. A value of
/// this type may be a scalar, a file, a list or a nested map.
#[verifier::external_type_specification]
#[verifier::external_body]
pub struct ExParsedParams(params::Map);

/// The value of one field of parsed parameters. Nothing here looks into
/// one; the type is declared because that of the parameters mentions it.
#[verifier::external_type_specification]
#[verifier::external_body]
pub struct ExParsedValue(params::Value);

/// What parsed parameters hold: for each of their fields, in ascending
/// order of the names, the name and the single string that the field's
/// value stands for. A value that is no scalar (a file, a list, a nested
/// map) stands for none.
pub uninterp spec fn map_entries(m: params::Map) -> Seq<(Seq<char>, Option<Seq<char>>)>;

/// Every field stands for a single string.
pub open spec fn all_scalar(entries: Seq<(Seq<char>, Option<Seq<char>>)>) -> bool {
    forall|i: int| 0 <= i < entries.len() ==> (#[trigger] entries[i]).1.is_some()
}

/// The fields with their strings.
pub open spec fn scalar_pairs(entries: Seq<(Seq<char>, Option<Seq<char>>)>) -> Seq<
    (Seq<char>, Seq<char>),
> {
    entries.map_values(|e: (Seq<char>, Option<Seq<char>>)| (e.0, e.1.unwrap()))
}

/// The names of the fields.
pub open spec fn entry_names(entries: Seq<(Seq<char>, Option<Seq<char>>)>) -> Seq<Seq<char>> {
    entries.map_values(|e: (Seq<char>, Option<Seq<char>>)| e.0)
}

/// The views of the names that a request supplied.
pub open spec fn supplied_view(supplied: Seq<String>) -> Seq<Seq<char>> {
    supplied.map_values(|n: String| n@)
}

/// What extraction gives for the entries of parsed parameters: their map,
/// where each field stands for a single string and no name is repeated.
pub open spec fn strict_spec(entries: Seq<(Seq<char>, Option<Seq<char>>)>) -> Result<
    Map<Seq<char>, Seq<char>>,
    ParseError,
> {
    if all_scalar(entries) && !has_repeated_name(entry_names(entries)) {
        Ok(pairs_to_map(scalar_pairs(entries)))
    } else {
        Err(ParseError::NotScalar)
    }
}

/// What extraction gives for a request. `supplied` holds the name of each
/// name/value pair of the request as the transport decoded it, one name for
/// each pair; `parsed` is what the transport made of the pairs, if it could
/// parse them. A name that was supplied more than once makes the extraction
/// fail: no value is picked for it.
pub open spec fn get_map_spec(supplied: Seq<Seq<char>>, parsed: Option<&params::Map>) -> Result<
    Map<Seq<char>, Seq<char>>,
    ParseError,
> {
    match parsed {
        None => Err(ParseError::Malformed),
        Some(m) => if has_repeated_name(supplied) {
            Err(ParseError::NotScalar)
        } else {
            strict_spec(map_entries(*m))
        },
    }
}

/// The result of an extraction as a mathematical value.
pub open spec fn extracted_view(r: Result<ParameterMap, ParseError>) -> Result<
    Map<Seq<char>, Seq<char>>,
    ParseError,
> {
    match r {
        Ok(map) => Ok(map@),
        Err(e) => Err(e),
    }
}

/// Calls `params::Map::to_strict_map::<String>`, and hands out the pairs of
/// the `BTreeMap` that it returns, in that map's order.
///
/// Trusted, not proved: the call returns `None` exactly when the value of
/// some field converts to no string (`<String as params::FromValue>::from_value`
/// gives `None` for it), and otherwise a map with the same names, each with
/// the string that its value converts to.
#[verifier::external_body]
fn to_strict_pairs(m: &params::Map) -> (r: Option<Vec<(String, String)>>)
    ensures
        r.is_some() == all_scalar(map_entries(*m)),
        r matches Some(pairs) ==> pairs_view(pairs@) == scalar_pairs(map_entries(*m)),
{
    m.to_strict_map::<String>().map(|strict| strict.into_iter().collect())
}

/// What strict conversion gives for the pairs that it was handed, or for
/// none.
pub open spec fn from_strict_spec(pairs: Option<Seq<(Seq<char>, Seq<char>)>>) -> Result<
    Map<Seq<char>, Seq<char>>,
    ParseError,
> {
    match pairs {
        Some(found) => if has_repeated_name(pair_names(found)) {
            Err(ParseError::NotScalar)
        } else {
            Ok(pairs_to_map(found))
        },
        None => Err(ParseError::NotScalar),
    }
}

/// The map of the pairs that strict conversion made. Fails where the
/// conversion failed, and where two of the pairs have one name.
pub fn from_strict(pairs: Option<Vec<(String, String)>>) -> (r: Result<ParameterMap, ParseError>)
    ensures
        extracted_view(r) == from_strict_spec(
            match pairs {
                Some(found) => Some(pairs_view(found@)),
                None => None,
            },
        ),
{
    match pairs {
        Some(found) => match ParameterMap::from_pairs(found) {
            Some(map) => Ok(map),
            None => Err(ParseError::NotScalar),
        },
        None => Err(ParseError::NotScalar),
    }
}

/// Whether some name was supplied more than once.
pub fn has_repeated(supplied: &Vec<String>) -> (r: bool)
    ensures
        r == has_repeated_name(supplied_view(supplied@)),
{
    let ghost names = supplied_view(supplied@);
    let n = supplied.len();
    let mut i: usize = 0;
    while i < n
        invariant
            0 <= i <= n,
            n == supplied@.len(),
            names == supplied_view(supplied@),
            forall|a: int, b: int| 0 <= a < b < n && a < i ==> names[a] != names[b],
        decreases n - i,
    {
        let mut j: usize = i + 1;
        while j < n
            invariant
                i < j <= n,
                n == supplied@.len(),
                names == supplied_view(supplied@),
                forall|b: int| i < b < j ==> names[i as int] != names[b],
            decreases n - j,
        {
            if supplied[i] == supplied[j] {
                assert(0 <= i < j < names.len() && names[i as int] == names[j as int]);
                return true;
            }
            j += 1;
        }
        i += 1;
    }
    false
}

/// The parameters of a request as a map from name to string. `supplied`
/// holds the name of each name/value pair of the request as the transport
/// decoded it, one name for each pair. `parsed` is what the transport made
/// of the pairs, or `None` where it could not parse them.
///
/// A field with anything but a single scalar value makes the whole
/// extraction fail, and so does a name that was supplied more than once.
pub fn get_map(supplied: &Vec<String>, parsed: Option<&params::Map>) -> (r: Result<
    ParameterMap,
    ParseError,
>)
    ensures
        extracted_view(r) == get_map_spec(supplied_view(supplied@), parsed),
{
    match parsed {
        None => Err(ParseError::Malformed),
        Some(m) => {
            if has_repeated(supplied) {
                Err(ParseError::NotScalar)
            } else {
                let pairs = to_strict_pairs(m);
                proof {
                    let entries = map_entries(*m);
                    assert(pair_names(scalar_pairs(entries)) =~= entry_names(entries));
                }
                from_strict(pairs)
            }
        },
    }
}

} // verus!
