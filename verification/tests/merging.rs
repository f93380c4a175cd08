use my_algo::document::Json;
use my_algo::merge::merge;

fn text(s: &str) -> Json {
    Json::Text(s.to_string())
}

fn object(entries: Vec<(&str, Json)>) -> Json {
    Json::Object(entries.into_iter().map(|(k, v)| (k.to_string(), v)).collect())
}

#[test]
fn merge_with_empty_overlay_keeps_the_document() {
    let mut a = object(vec![
        ("fee", Json::Number(1000)),
        ("inner", object(vec![("x", Json::Bool(true))])),
        ("type", text("pay")),
    ]);
    merge(&mut a, object(vec![]));
    assert_eq!(
        a,
        object(vec![
            ("fee", Json::Number(1000)),
            ("inner", object(vec![("x", Json::Bool(true))])),
            ("type", text("pay")),
        ])
    );
}

#[test]
fn merge_of_empty_objects_is_empty() {
    let mut a = object(vec![]);
    merge(&mut a, object(vec![]));
    assert_eq!(a, object(vec![]));
}

#[test]
fn merge_adds_new_keys_at_the_end() {
    let mut a = object(vec![("a", Json::Number(1))]);
    merge(&mut a, object(vec![("b", Json::Number(2)), ("c", Json::Number(3))]));
    assert_eq!(
        a,
        object(vec![("a", Json::Number(1)), ("b", Json::Number(2)), ("c", Json::Number(3))])
    );
}

#[test]
fn merge_null_removes_the_key() {
    let mut a = object(vec![("a", Json::Number(1)), ("b", Json::Number(2))]);
    merge(&mut a, object(vec![("a", Json::Null), ("missing", Json::Null)]));
    assert_eq!(a, object(vec![("b", Json::Number(2))]));
}

#[test]
fn merge_replaces_a_value_in_place() {
    let mut a = object(vec![("a", Json::Number(1)), ("b", Json::Number(2))]);
    merge(&mut a, object(vec![("a", text("one"))]));
    assert_eq!(a, object(vec![("a", text("one")), ("b", Json::Number(2))]));
}

#[test]
fn merge_descends_into_nested_objects() {
    let mut a = object(vec![(
        "outer",
        object(vec![("keep", Json::Number(1)), ("drop", Json::Number(2)), ("change", Json::Number(3))]),
    )]);
    merge(
        &mut a,
        object(vec![(
            "outer",
            object(vec![("drop", Json::Null), ("change", Json::Bool(false)), ("new", text("n"))]),
        )]),
    );
    assert_eq!(
        a,
        object(vec![(
            "outer",
            object(vec![("keep", Json::Number(1)), ("change", Json::Bool(false)), ("new", text("n"))]),
        )])
    );
}

#[test]
fn merge_replaces_a_scalar_by_an_object_and_back() {
    let mut a = object(vec![("a", Json::Number(1)), ("b", object(vec![("x", Json::Number(1))]))]);
    merge(
        &mut a,
        object(vec![("a", object(vec![("y", Json::Null)])), ("b", Json::Number(7))]),
    );
    assert_eq!(
        a,
        object(vec![("a", object(vec![("y", Json::Null)])), ("b", Json::Number(7))])
    );
}

#[test]
fn merge_of_non_objects_replaces_the_base() {
    let mut a = Json::Number(1);
    merge(&mut a, object(vec![("k", Json::Null)]));
    assert_eq!(a, object(vec![("k", Json::Null)]));

    let mut b = object(vec![("k", Json::Number(1))]);
    merge(&mut b, Json::List(vec![Json::Number(2)]));
    assert_eq!(b, Json::List(vec![Json::Number(2)]));

    let mut c = object(vec![("k", Json::Number(1))]);
    merge(&mut c, Json::Null);
    assert_eq!(c, Json::Null);
}

#[test]
fn merge_applies_overlay_entries_in_order() {
    let mut a = object(vec![("a", Json::Number(1))]);
    merge(
        &mut a,
        object(vec![("a", Json::Null), ("a", Json::Number(5)), ("b", Json::Decimal("-1".to_string()))]),
    );
    assert_eq!(a, object(vec![("a", Json::Number(5)), ("b", Json::Decimal("-1".to_string()))]));
}

#[test]
fn get_finds_the_first_entry_with_the_key() {
    let a = object(vec![("a", Json::Number(1)), ("b", Json::Number(2)), ("a", Json::Number(3))]);
    assert_eq!(a.get(&"a".to_string()), Some(&Json::Number(1)));
    assert_eq!(a.get(&"b".to_string()), Some(&Json::Number(2)));
    assert_eq!(a.get(&"c".to_string()), None);
    assert_eq!(Json::Number(1).get(&"a".to_string()), None);
    match &a {
        Json::Object(entries) => {
            assert_eq!(Json::find_key(entries, &"b".to_string()), Some(1));
            assert_eq!(Json::find_key(entries, &"z".to_string()), None);
        }
        _ => unreachable!(),
    }
}
