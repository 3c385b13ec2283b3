use ndex::utilities::json::{json_unquoted_text, json_value_text, JsonValue};

fn sample() -> JsonValue {
    JsonValue::Object(vec![
        ("a".to_string(), JsonValue::Array(vec![
            JsonValue::Number("1".to_string()),
            JsonValue::Text("x\"y\n".to_string()),
            JsonValue::Null,
            JsonValue::Bool(true),
        ])),
        ("b".to_string(), JsonValue::Object(vec![])),
        ("c".to_string(), JsonValue::Number("-2.5".to_string())),
    ])
}

#[test]
fn json_text_is_serde_compact_text() {
    let expected: serde_json::Value = serde_json::from_str(r#"{"a":[1,"x\"y\n",null,true],"b":{},"c":-2.5}"#).unwrap();
    assert_eq!(json_value_text(&sample()), expected.to_string());
}

#[test]
fn json_quote_escapes() {
    let said = JsonValue::Text("he said \"hi\"".to_string());
    assert_eq!(json_value_text(&said), "\"he said \\\"hi\\\"\"");
}

#[test]
fn unquoted_text_of_a_string() {
    assert_eq!(json_unquoted_text(&JsonValue::Text("plain words".to_string())), "plain words");
    assert_eq!(json_unquoted_text(&JsonValue::Text("a\"b".to_string())), "a\\b");
}

#[test]
fn get_key_and_index() {
    let v = sample();
    let a = v.get_key("a").unwrap();
    assert_eq!(a.get_index(3), Some(&JsonValue::Bool(true)));
    assert_eq!(a.get_index(4), None);
    assert_eq!(v.get_key("zzz"), None);
    assert_eq!(JsonValue::Null.get_key("a"), None);
    assert!(a.get_index(2).unwrap().is_null());
}
