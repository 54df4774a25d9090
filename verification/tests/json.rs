use copilot_provider::encode::{from_value, to_pretty_text, to_value};
use copilot_provider::json::{Json, JsonObject};
use serde_json::{Number, Value};

fn text(s: &str) -> Json {
    Json::String(s.to_string())
}

fn object(entries: Vec<(&str, Json)>) -> Json {
    let mut object = JsonObject::new();
    for (key, value) in entries {
        object = object.with(key, value);
    }
    Json::Object(object)
}

#[test]
fn values_are_found_by_key() {
    let value = object(vec![("b", text("x")), ("a", Json::Bool(true))]);
    assert_eq!(value.get_str("b"), Some("x"));
    assert_eq!(value.get_str("a"), None);
    assert!(matches!(value.get("a"), Some(Json::Bool(true))));
    assert!(value.get("c").is_none());
    assert!(value.is_object());
    assert!(text("b").get("b").is_none());
    assert!(!Json::Array(vec![]).is_object());
    assert_eq!(text("b").as_str(), Some("b"));
    assert_eq!(Json::Null.as_str(), None);
}

#[test]
fn later_values_take_the_place_of_earlier_ones() {
    let value = object(vec![("a", text("1")), ("b", text("2")), ("a", text("3"))]);
    assert_eq!(value.get_str("a"), Some("3"));
    assert_eq!(value.to_compact_text().unwrap(), "{\"a\":\"3\",\"b\":\"2\"}");
    let Json::Object(entries) = &value else { panic!() };
    assert_eq!(entries.len(), 2);
    assert_eq!(entries.key(1), "b");
    assert_eq!(entries.value(0).as_str(), Some("3"));
}

#[test]
fn values_are_written_as_json() {
    let value = object(vec![
        ("z", Json::Null),
        ("a", Json::Array(vec![Json::Bool(false), Json::Number(Number::from(-7))])),
        ("quote", text("\"\n")),
        ("inner", object(vec![])),
    ]);
    let written = "{\"z\":null,\"a\":[false,-7],\"quote\":\"\\\"\\n\",\"inner\":{}}";
    assert_eq!(value.to_compact_text().unwrap(), written);
    assert_eq!(value.to_text(), written);
    assert_eq!(value.clone().to_text(), written);
}

#[test]
fn lists_are_written_on_many_lines() {
    let first = object(vec![("b", text("x")), ("a", Json::Array(vec![Json::Bool(true)]))]);
    let second = text("y");
    assert_eq!(to_pretty_text(&vec![]).unwrap(), "[]");
    assert_eq!(
        to_pretty_text(&vec![&first, &second]).unwrap(),
        "[\n  {\n    \"b\": \"x\",\n    \"a\": [\n      true\n    ]\n  },\n  \"y\"\n]"
    );
}

#[test]
fn values_keep_what_they_hold_outside() {
    let mut map = serde_json::Map::new();
    map.insert("k".to_string(), Value::Array(vec![Value::Null, Value::Number(Number::from(3))]));
    map.insert("b".to_string(), Value::Bool(true));
    let value = object(vec![
        ("k", Json::Array(vec![Json::Null, Json::Number(Number::from(3))])),
        ("b", Json::Bool(true)),
    ]);
    assert_eq!(to_value(&value), Value::Object(map));
    assert_eq!(to_value(&text("s")), Value::String("s".to_string()));
}

#[test]
fn numbers_are_carried_through() {
    let number: Number = serde_json::from_str("1.5e300").unwrap();
    let value = Json::Number(number.clone());
    assert_eq!(value.clone().to_text(), number.to_string());
    assert_eq!(to_value(&value), Value::Number(number));
}

#[test]
fn outside_values_keep_what_they_hold() {
    let written = "{\"z\":[1,{\"y\":null,\"a\":[]},true],\"b\":\"x\",\"a\":-0.5}";
    let outside: Value = serde_json::from_str(written).unwrap();
    let value = from_value(outside.clone());
    assert_eq!(value.get_str("b"), Some("x"));
    assert_eq!(value.to_text(), written);
    assert_eq!(to_value(&value), outside);
}
