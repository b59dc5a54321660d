//! The structured value: lookup, accessors, copies and equality.

use bluebird_core::value::str_eq;
use bluebird_core::StructValue;

fn sample_object() -> StructValue {
    StructValue::Object(vec![
        ("name".to_string(), StructValue::text("blue")),
        ("count".to_string(), StructValue::Int(3)),
        ("flag".to_string(), StructValue::Bool(true)),
        (
            "items".to_string(),
            StructValue::List(vec![StructValue::Int(1), StructValue::Null]),
        ),
    ])
}

#[test]
fn get_finds_bound_keys_and_misses_others() {
    let v = sample_object();
    assert!(v.get("name").is_some());
    assert_eq!(v.get("name").unwrap().as_text().unwrap(), "blue");
    assert_eq!(v.get("count").unwrap().as_int(), Some(3));
    assert_eq!(v.get("flag").unwrap().as_bool(), Some(true));
    assert!(v.get("absent").is_none());
    assert!(StructValue::Null.get("name").is_none());
}

#[test]
fn get_returns_first_binding_when_keys_repeat() {
    let v = StructValue::Object(vec![
        ("k".to_string(), StructValue::Int(1)),
        ("k".to_string(), StructValue::Int(2)),
    ]);
    assert_eq!(v.get("k").unwrap().as_int(), Some(1));
}

#[test]
fn accessors_reject_other_shapes() {
    let v = StructValue::Int(9);
    assert!(v.as_text().is_none());
    assert!(v.as_bool().is_none());
    assert!(v.as_list().is_none());
    assert!(v.as_object().is_none());
    assert_eq!(v.as_int(), Some(9));
}

#[test]
fn duplicate_makes_an_equal_copy() {
    let v = sample_object();
    let copy = v.duplicate();
    assert!(v.same_as(&copy));
    assert!(copy.same_as(&v));
}

#[test]
fn same_as_distinguishes_different_values() {
    let v = sample_object();
    assert!(!v.same_as(&StructValue::Null));
    assert!(!StructValue::Int(1).same_as(&StructValue::Int(2)));
    assert!(!StructValue::text("a").same_as(&StructValue::text("b")));
    let shorter = StructValue::List(vec![StructValue::Int(1)]);
    let longer = StructValue::List(vec![StructValue::Int(1), StructValue::Int(2)]);
    assert!(!shorter.same_as(&longer));
}

#[test]
fn str_eq_compares_contents() {
    assert!(str_eq("abc", "abc"));
    assert!(!str_eq("abc", "abd"));
    assert!(str_eq("", ""));
    assert!(!str_eq("a", ""));
}
