use myust::json::Json;

fn s(text: &str) -> Json {
    Json::Str(text.to_string())
}

fn obj(entries: Vec<(&str, Json)>) -> Json {
    Json::Object(entries.into_iter().map(|(k, v)| (k.to_string(), v)).collect())
}

/// The library's copy of a serde_json value, built entry by entry.
fn from_serde(v: &serde_json::Value) -> Json {
    match v {
        serde_json::Value::Null => Json::Null,
        serde_json::Value::Bool(b) => Json::Bool(*b),
        serde_json::Value::Number(n) => Json::Number(n.to_string()),
        serde_json::Value::String(t) => Json::Str(t.clone()),
        serde_json::Value::Array(items) => Json::Array(items.iter().map(from_serde).collect()),
        serde_json::Value::Object(m) => {
            Json::Object(m.iter().map(|(k, v)| (k.clone(), from_serde(v))).collect())
        }
    }
}

#[test]
fn text_of_scalars() {
    assert_eq!(Json::Null.to_text(), "null");
    assert_eq!(Json::Bool(true).to_text(), "true");
    assert_eq!(Json::Bool(false).to_text(), "false");
    assert_eq!(Json::from_u64(0).to_text(), "0");
    assert_eq!(Json::from_u64(1234567890).to_text(), "1234567890");
    assert_eq!(Json::from_u64(u64::MAX).to_text(), "18446744073709551615");
    assert_eq!(s("a\"b\\c\n").to_text(), "\"a\\\"b\\\\c\\n\"");
    assert_eq!(
        s("\u{1}\u{8}\u{c}\u{1f}\t\r\u{7f}\u{e9}").to_text(),
        "\"\\u0001\\b\\f\\u001f\\t\\r\u{7f}\u{e9}\""
    );
}

#[test]
fn text_of_nested_values() {
    let v = obj(vec![
        ("a", Json::Array(vec![Json::from_u64(1), s("x"), Json::Null])),
        ("b", obj(vec![])),
        ("c", Json::Array(vec![])),
    ]);
    assert_eq!(v.to_text(), "{\"a\":[1,\"x\",null],\"b\":{},\"c\":[]}");
}

#[test]
fn text_matches_serde_json() {
    let texts = [
        "{\"files\":[{\"filename\":\"main.rs\",\"content\":\"fn main() {}\\n\"}],\"n\":-3.5,\"t\":true}",
        "[1,2,[3,{\"k\":null}],\"\\u0001 \\\"q\\\"\"]",
        "\"\u{e9}t\u{e9}\"",
    ];
    for t in texts {
        let v: serde_json::Value = serde_json::from_str(t).unwrap();
        assert_eq!(from_serde(&v).to_text(), serde_json::to_string(&v).unwrap());
        assert_eq!(from_serde(&v).to_text(), v.to_string());
    }
}

#[test]
fn lookups_follow_the_object_model() {
    let v = obj(vec![("id", s("abc")), ("n", Json::Null), ("arr", Json::Array(vec![s("q")]))]);
    assert!(matches!(v.get("id"), Some(Json::Str(t)) if t == "abc"));
    assert!(v.get("missing").is_none());
    assert!(v.index("missing").is_null());
    assert!(v.index("n").is_null());
    assert_eq!(v.index("id").as_str().map(|t| t.as_str()), Some("abc"));
    assert!(v.index("arr").as_array().is_some());
    assert!(v.index("id").as_array().is_none());
    assert!(v.as_object().is_some());
    // keys are looked up on objects only
    assert!(s("id").get("id").is_none());
    assert!(Json::Array(vec![s("id")]).get("id").is_none());
    assert!(s("x").as_object().is_none());
}

#[test]
fn duplicate_keeps_the_text() {
    let v = obj(vec![("a", Json::Array(vec![obj(vec![("b", s("c"))]), Json::Bool(false)]))]);
    assert_eq!(v.duplicate().to_text(), v.to_text());
}
