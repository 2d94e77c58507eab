use hello_params::extract::{from_strict, get_map, has_repeated};
use hello_params::fail::ParseError;
use params::Value;

fn s(text: &str) -> String {
    String::from(text)
}

fn names(list: &[&str]) -> Vec<String> {
    list.iter().map(|name| String::from(*name)).collect()
}

#[test]
fn get_map_reads_each_field() {
    let mut m = params::Map::new();
    m.assign("first", Value::String(s("Ann"))).unwrap();
    m.assign("last", Value::String(s("Lee"))).unwrap();
    let map = get_map(&names(&["first", "last"]), Some(&m)).unwrap();
    assert_eq!(map.len(), 2);
    assert_eq!(map.get("first"), Some(&s("Ann")));
    assert_eq!(map.get("last"), Some(&s("Lee")));
    assert_eq!(map.get("middle"), None);
}

#[test]
fn get_map_of_no_fields_is_empty() {
    let map = get_map(&Vec::new(), Some(&params::Map::new())).unwrap();
    assert_eq!(map.len(), 0);
}

#[test]
fn get_map_refuses_a_name_supplied_twice() {
    let mut m = params::Map::new();
    m.assign("first", Value::String(s("Ann"))).unwrap();
    m.assign("first", Value::String(s("Bob"))).unwrap();
    m.assign("last", Value::String(s("Lee"))).unwrap();
    let supplied = names(&["first", "first", "last"]);
    assert_eq!(get_map(&supplied, Some(&m)).err(), Some(ParseError::NotScalar));
}

#[test]
fn get_map_refuses_a_name_supplied_twice_with_one_value() {
    let mut m = params::Map::new();
    m.assign("first", Value::String(s("Ann"))).unwrap();
    m.assign("last", Value::String(s("Lee"))).unwrap();
    m.assign("first", Value::String(s("Ann"))).unwrap();
    let supplied = names(&["first", "last", "first"]);
    assert_eq!(get_map(&supplied, Some(&m)).err(), Some(ParseError::NotScalar));
}

#[test]
fn get_map_refuses_a_repeated_name_at_any_two_places() {
    let mut m = params::Map::new();
    for name in ["a", "b", "c", "d"] {
        m.assign(name, Value::String(s("1"))).unwrap();
    }
    assert!(get_map(&names(&["a", "b", "c", "d"]), Some(&m)).is_ok());
    for supplied in [
        names(&["a", "a", "b", "c", "d"]),
        names(&["a", "b", "c", "d", "a"]),
        names(&["a", "b", "c", "d", "d"]),
        names(&["a", "b", "c", "b", "d"]),
    ] {
        assert_eq!(get_map(&supplied, Some(&m)).err(), Some(ParseError::NotScalar));
    }
}

#[test]
fn names_differ_by_case_and_by_length() {
    let mut m = params::Map::new();
    for name in ["first", "First", "firs"] {
        m.assign(name, Value::String(s("1"))).unwrap();
    }
    let supplied = names(&["first", "First", "firs"]);
    assert!(!has_repeated(&supplied));
    assert!(get_map(&supplied, Some(&m)).is_ok());
}

#[test]
fn has_repeated_finds_a_name_that_stands_twice() {
    assert!(!has_repeated(&Vec::new()));
    assert!(!has_repeated(&names(&["a"])));
    assert!(!has_repeated(&names(&["a", "b", "c"])));
    assert!(has_repeated(&names(&["a", "a"])));
    assert!(has_repeated(&names(&["a", "b", "a"])));
    assert!(has_repeated(&names(&["a", "b", "c", "c"])));
    assert!(has_repeated(&names(&["", "x", ""])));
}

#[test]
fn get_map_reads_flat_values_as_strings() {
    let mut m = params::Map::new();
    m.assign("nothing", Value::Null).unwrap();
    m.assign("yes", Value::Boolean(true)).unwrap();
    m.assign("no", Value::Boolean(false)).unwrap();
    m.assign("signed", Value::I64(-3)).unwrap();
    m.assign("unsigned", Value::U64(15)).unwrap();
    m.assign("real", Value::F64(10.5)).unwrap();
    let map = get_map(&Vec::new(), Some(&m)).unwrap();
    assert_eq!(map.len(), 6);
    assert_eq!(map.get("nothing"), Some(&s("")));
    assert_eq!(map.get("yes"), Some(&s("true")));
    assert_eq!(map.get("no"), Some(&s("false")));
    assert_eq!(map.get("signed"), Some(&s("-3")));
    assert_eq!(map.get("unsigned"), Some(&s("15")));
    assert_eq!(map.get("real"), Some(&s("10.5")));
}

#[test]
fn get_map_refuses_a_list() {
    let mut m = params::Map::new();
    m.assign("first", Value::String(s("Ann"))).unwrap();
    m.assign("names[]", Value::String(s("Anne"))).unwrap();
    m.assign("names[]", Value::String(s("Bob"))).unwrap();
    let supplied = names(&["first", "names[]", "names[]"]);
    assert_eq!(get_map(&supplied, Some(&m)).err(), Some(ParseError::NotScalar));
}

#[test]
fn get_map_refuses_a_list_of_one() {
    let mut m = params::Map::new();
    m.assign("names[]", Value::String(s("Anne"))).unwrap();
    assert_eq!(get_map(&names(&["names[]"]), Some(&m)).err(), Some(ParseError::NotScalar));
}

#[test]
fn get_map_refuses_a_nested_map() {
    let mut m = params::Map::new();
    m.assign("user[name]", Value::String(s("Marie"))).unwrap();
    assert_eq!(get_map(&names(&["user[name]"]), Some(&m)).err(), Some(ParseError::NotScalar));
}

#[test]
fn get_map_of_an_unparsable_request_is_malformed() {
    assert_eq!(get_map(&Vec::new(), None).err(), Some(ParseError::Malformed));
    assert_eq!(get_map(&names(&["a", "a"]), None).err(), Some(ParseError::Malformed));
}

#[test]
fn from_strict_makes_the_map_of_the_pairs() {
    let map = from_strict(Some(vec![(s("a"), s("1")), (s("b"), s("2"))])).unwrap();
    assert_eq!(map.len(), 2);
    assert_eq!(map.get("a"), Some(&s("1")));
    assert_eq!(map.get("b"), Some(&s("2")));
}

#[test]
fn from_strict_refuses_two_pairs_with_one_name() {
    let pairs = vec![(s("first"), s("A")), (s("first"), s("B")), (s("last"), s("C"))];
    assert_eq!(from_strict(Some(pairs)).err(), Some(ParseError::NotScalar));
    let same = vec![(s("first"), s("A")), (s("last"), s("C")), (s("first"), s("A"))];
    assert_eq!(from_strict(Some(same)).err(), Some(ParseError::NotScalar));
}

#[test]
fn from_strict_without_pairs_is_not_scalar() {
    assert_eq!(from_strict(None).err(), Some(ParseError::NotScalar));
}
