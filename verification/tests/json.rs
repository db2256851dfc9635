use rust_compose::json::{merge_objects, Json, JsonMap};

fn obj(members: &[(&str, Json)]) -> Json {
    let mut m = JsonMap::new();
    for (k, v) in members {
        m.insert(k.to_string(), v.clone());
    }
    Json::Object(m)
}

#[test]
fn insert_replaces_in_place_or_appends() {
    let mut m = JsonMap::new();
    m.insert("a".into(), Json::text("1"));
    m.insert("b".into(), Json::text("2"));
    m.insert("a".into(), Json::text("3"));
    assert_eq!(m.len(), 2);
    assert_eq!(m.get("a"), Some(&Json::text("3")));
    assert_eq!(m.get("b"), Some(&Json::text("2")));
    assert_eq!(m.get("c"), None);
    let (k0, v0) = m.get_index(0).unwrap();
    assert_eq!(k0, "a");
    assert_eq!(v0, &Json::text("3"));
    assert!(m.get_index(2).is_none());
}

#[test]
fn merge_overlays_nested_objects() {
    let mut base = obj(&[
        ("a", obj(&[("x", Json::text("1")), ("y", Json::text("2"))])),
        ("b", Json::text("keep")),
    ]);
    let overlay = obj(&[
        ("a", obj(&[("y", Json::text("20")), ("z", Json::text("30"))])),
        ("c", Json::Bool(false)),
    ]);
    merge_objects(&mut base, &overlay);
    let expected = obj(&[
        ("a", obj(&[("x", Json::text("1")), ("y", Json::text("20")), ("z", Json::text("30"))])),
        ("b", Json::text("keep")),
        ("c", Json::Bool(false)),
    ]);
    assert_eq!(base, expected);
}

#[test]
fn merge_scalar_overlay_replaces() {
    let mut base = obj(&[("a", Json::text("1"))]);
    merge_objects(&mut base, &Json::Number("3".into()));
    assert_eq!(base, Json::Number("3".into()));
    let mut base2 = Json::text("s");
    let overlay = obj(&[("k", Json::Null)]);
    merge_objects(&mut base2, &overlay);
    assert_eq!(base2, overlay);
    let mut base3 = obj(&[("a", obj(&[("x", Json::Null)]))]);
    merge_objects(&mut base3, &obj(&[("a", Json::Array(vec![Json::Bool(true)]))]));
    assert_eq!(base3, obj(&[("a", Json::Array(vec![Json::Bool(true)]))]));
}

#[test]
fn merge_empty_object_is_identity() {
    let original = obj(&[("a", Json::text("1")), ("b", obj(&[("c", Json::Null)]))]);
    let mut base = original.clone();
    merge_objects(&mut base, &Json::Object(JsonMap::new()));
    assert_eq!(base, original);
}

#[test]
fn clone_is_equal_and_is_null() {
    let v = Json::Array(vec![obj(&[("a", Json::Number("1".into()))]), Json::Null]);
    assert_eq!(v.clone_json(), v);
    assert!(Json::Null.is_null());
    assert!(!Json::Bool(false).is_null());
    assert_eq!(Json::default(), Json::Null);
    assert_eq!(Json::empty_object(), Json::Object(JsonMap::new()));
    assert_eq!(Json::array(vec![Json::Null]), Json::Array(vec![Json::Null]));
}

#[test]
fn insert_all_sets_in_turn() {
    let mut m = JsonMap::new();
    m.insert("a".into(), Json::text("1"));
    let mut other = JsonMap::new();
    other.insert("b".into(), Json::text("2"));
    other.insert("a".into(), Json::text("3"));
    m.insert_all(&other);
    assert_eq!(m.len(), 2);
    assert_eq!(m.get("a"), Some(&Json::text("3")));
    assert_eq!(m.get_index(1).unwrap().0, "b");
}

#[test]
fn with_sets_in_place() {
    let m = JsonMap::new()
        .with("a", Json::text("1"))
        .with("b", Json::text("2"))
        .with("a", Json::text("3"));
    assert_eq!(m.len(), 2);
    assert_eq!(m.get_index(0).unwrap().0, "a");
    assert_eq!(m.get("a"), Some(&Json::text("3")));
}

#[test]
fn merge_twice_is_merge_once() {
    let overlay = obj(&[
        ("a", obj(&[("y", Json::text("20")), ("z", obj(&[("deep", Json::Bool(true))]))])),
        ("c", Json::Array(vec![Json::Null])),
    ]);
    let mut once = obj(&[("a", obj(&[("x", Json::text("1")), ("y", Json::text("2"))])), ("b", Json::Null)]);
    merge_objects(&mut once, &overlay);
    let mut twice = once.clone();
    merge_objects(&mut twice, &overlay);
    assert_eq!(twice, once);
    let mut itself = overlay.clone();
    merge_objects(&mut itself, &overlay);
    assert_eq!(itself, overlay);
}

#[test]
fn insert_all_lookup() {
    let mut m = JsonMap::new();
    m.insert("a".into(), Json::text("1"));
    m.insert("b".into(), Json::text("2"));
    let other = JsonMap::new().with("b", Json::text("20")).with("c", Json::text("30"));
    m.insert_all(&other);
    assert_eq!(m.get("a"), Some(&Json::text("1")));
    assert_eq!(m.get("b"), Some(&Json::text("20")));
    assert_eq!(m.get("c"), Some(&Json::text("30")));
}

#[test]
fn objects_compare_as_maps() {
    let a = obj(&[("x", Json::text("1")), ("y", obj(&[("p", Json::Null), ("q", Json::Bool(true))]))]);
    let b = obj(&[("y", obj(&[("q", Json::Bool(true)), ("p", Json::Null)])), ("x", Json::text("1"))]);
    assert_eq!(a, b);
    let c = obj(&[("x", Json::text("1")), ("y", obj(&[("p", Json::Null)]))]);
    assert_ne!(a, c);
    let d = obj(&[("x", Json::text("2")), ("y", obj(&[("p", Json::Null), ("q", Json::Bool(true))]))]);
    assert_ne!(a, d);
    assert_ne!(Json::Array(vec![Json::Null, Json::Bool(true)]), Json::Array(vec![Json::Bool(true), Json::Null]));
    assert_ne!(Json::Null, Json::Bool(false));
    assert!(a.json_eq(&b));
    let m1 = JsonMap::new().with("a", Json::Null).with("b", Json::Null);
    let m2 = JsonMap::new().with("b", Json::Null).with("a", Json::Null);
    assert_eq!(m1, m2);
    assert!(m1.map_eq(&m2));
}
