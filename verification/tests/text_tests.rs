use enki::json::{json_str, object_schema, str_eq, JsonNumber, JsonValue};
use enki::text::{concat_str, push_signed_decimal, split_lines, trim_str, u64_to_string};

#[test]
fn lines_match_std() {
    for t in ["", "a", "a\n", "a\r\nb", "\n\n", "x\ny\n\nz", "a\rb\n", "é\n\r\n"] {
        let want: Vec<String> = t.lines().map(|s| s.to_string()).collect();
        assert_eq!(split_lines(t), want, "{:?}", t);
    }
}

#[test]
fn trim_matches_std() {
    for t in ["", "  a ", "\t\nx y\r\n", "\u{3000}wide\u{3000}", "none"] {
        assert_eq!(trim_str(t), t.trim(), "{:?}", t);
    }
}

#[test]
fn decimal_rendering() {
    assert_eq!(u64_to_string(0), "0");
    assert_eq!(u64_to_string(1234567890), "1234567890");
    assert_eq!(u64_to_string(u64::MAX), u64::MAX.to_string());
    let mut s = String::from("n=");
    push_signed_decimal(&mut s, i64::MIN);
    assert_eq!(s, format!("n={}", i64::MIN));
    assert_eq!(concat_str("ab", "cd"), "abcd");
}

#[test]
fn json_access() {
    let v = JsonValue::Object(vec![
        ("name".to_string(), JsonValue::String("x".to_string())),
        ("n".to_string(), JsonValue::Number(JsonNumber::PosInt(3))),
        ("neg".to_string(), JsonValue::Number(JsonNumber::NegInt(-3))),
    ]);
    assert_eq!(v.get_str("name").as_deref(), Some("x"));
    assert_eq!(v.get_str("n"), None);
    assert_eq!(v.get_u64("n"), Some(3));
    assert_eq!(v.get_u64("neg"), None);
    assert_eq!(v.get_u64("missing"), None);
    assert!(v.get("name").is_some());
    assert!(JsonValue::Null.get("name").is_none());
    assert_eq!(json_str("q").as_str(), Some("q"));
    assert!(str_eq("abc", "abc"));
    assert!(!str_eq("abc", "abd"));
}

#[test]
fn object_schema_shape() {
    let props = vec![("path", "string", "The path")];
    let req = vec!["path"];
    let s = object_schema(&props, Some(&req));
    assert_eq!(s.get_str("type").as_deref(), Some("object"));
    let p = s.get("properties").unwrap().get("path").unwrap();
    assert_eq!(p.get_str("type").as_deref(), Some("string"));
    assert_eq!(p.get_str("description").as_deref(), Some("The path"));
    match s.get("required") {
        Some(JsonValue::Array(a)) => assert_eq!(a.len(), 1),
        _ => panic!("expected required"),
    }
}
