use polykit::json::JsonValue;

fn obj(entries: Vec<(&str, JsonValue)>) -> JsonValue {
    JsonValue::Object(entries.into_iter().map(|(k, v)| (k.to_string(), v)).collect())
}

#[test]
fn set_field_appends_and_replaces() {
    let mut v = obj(vec![("a", JsonValue::Int(1))]);
    v.set_field("b", JsonValue::Bool(true));
    assert_eq!(v, obj(vec![("a", JsonValue::Int(1)), ("b", JsonValue::Bool(true))]));
    v.set_field("a", JsonValue::Int(2));
    assert_eq!(v, obj(vec![("a", JsonValue::Int(2)), ("b", JsonValue::Bool(true))]));
}

#[test]
fn set_field_on_null_creates_an_object() {
    let mut v = JsonValue::Null;
    v.set_field("k", JsonValue::Str("x".to_string()));
    assert_eq!(v, obj(vec![("k", JsonValue::Str("x".to_string()))]));
}

#[test]
fn set_field_leaves_scalars_alone() {
    let mut v = JsonValue::Int(7);
    v.set_field("k", JsonValue::Null);
    assert_eq!(v, JsonValue::Int(7));
}

#[test]
fn clone_is_deep() {
    let v = obj(vec![
        ("nested", obj(vec![("x", JsonValue::Array(vec![JsonValue::UInt(9)]))])),
        ("s", JsonValue::Str("hello".to_string())),
        ("f", JsonValue::Float(0x3FF0000000000000)),
    ]);
    let copy = v.clone();
    assert_eq!(copy, v);
}
