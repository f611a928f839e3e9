use opencli_rs::json::{document_text, Json, JsonNumber};

fn text(s: &str) -> Json {
    Json::String(s.to_string())
}

#[test]
fn documents_are_read() {
    let doc = Json::Object(vec![
        ("n".to_string(), Json::Number(JsonNumber::Natural(7))),
        ("m".to_string(), Json::Number(JsonNumber::Negative(-7))),
        ("b".to_string(), Json::Bool(true)),
        ("s".to_string(), text("x")),
        ("a".to_string(), Json::Array(vec![text("first"), text("second")])),
    ]);
    assert_eq!(doc.get("n").and_then(|v| v.as_u64()), Some(7));
    assert_eq!(doc.get("m").and_then(|v| v.as_u64()), None);
    assert_eq!(doc.get("b").and_then(|v| v.as_bool()), Some(true));
    assert_eq!(doc.get_str("s"), Some("x"));
    assert_eq!(doc.get_str("n"), None);
    assert_eq!(doc.get("a").and_then(|v| v.first()), Some(&text("first")));
    assert_eq!(doc.get("z"), None);
    assert_eq!(doc.first(), None);
    assert_eq!(text("x").get("s"), None);
    assert!(Json::Null.is_null());
    assert!(!doc.is_null());
}

#[test]
fn natural_numbers_are_read_however_they_are_held() {
    let held = |n: JsonNumber| Json::Number(n).as_u64();
    assert_eq!(held(JsonNumber::Negative(7)), Some(7));
    assert_eq!(held(JsonNumber::Real(serde_json::Number::from(7u64))), Some(7));
    assert_eq!(held(JsonNumber::Real(serde_json::Number::from(-7i64))), None);
}

#[test]
fn copies_are_equal() {
    let real = match serde_json::Number::from_f64(1.5) {
        Some(n) => n,
        None => panic!("no such number"),
    };
    let doc = Json::Array(vec![
        Json::Null,
        Json::Number(JsonNumber::Real(real)),
        Json::Object(vec![("k".to_string(), Json::Array(vec![]))]),
    ]);
    assert_eq!(doc.duplicate(), doc);
}

#[test]
fn documents_are_written_in_lines() {
    assert_eq!(document_text(&serde_json::Value::Null), "null");
    assert_eq!(
        document_text(&serde_json::Value::Array(vec![serde_json::Value::Bool(true)])),
        "[\n  true\n]"
    );
}
