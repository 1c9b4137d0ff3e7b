use libewon::m2web::json::{parse, Category, Json};

#[test]
fn parse_reads_an_object() {
    let parsed = parse("{\"success\": true, \"n\": 12}").unwrap();
    assert_eq!(parsed.member("success"), Some(&Json::Bool(true)));
    assert_eq!(parsed.member("n"), Some(&Json::Number("12".to_string())));
    assert_eq!(parsed.member("m"), None);
    assert!(parsed.is_object());
}

#[test]
fn parse_reads_every_kind_of_value() {
    let parsed = parse(r#"[null, false, -3, 1.5, "a\"b", [], {}]"#).unwrap();
    assert_eq!(
        parsed,
        Json::Array(vec![
            Json::Null,
            Json::Bool(false),
            Json::Number("-3".to_string()),
            Json::Number("1.5".to_string()),
            Json::Text("a\"b".to_string()),
            Json::Array(vec![]),
            Json::Object(vec![]),
        ])
    );
    assert!(!parsed.is_object());
}

#[test]
fn parse_reads_nested_documents() {
    let parsed = parse(r#"{"a": {"b": [1, {"c": "d"}]}}"#).unwrap();
    let inner = parsed.member("a").unwrap().member("b").unwrap();
    assert_eq!(
        inner,
        &Json::Array(vec![
            Json::Number("1".to_string()),
            Json::Object(vec![("c".to_string(), Json::Text("d".to_string()))]),
        ])
    );
}

#[test]
fn parse_reports_truncated_text() {
    let error = parse("{\"success\": ").unwrap_err();
    assert_eq!(error.category, Category::Eof);
    assert_eq!(error.detail, "EOF while parsing a value at line 1 column 12");
}

#[test]
fn parse_reports_wrong_syntax() {
    let error = parse("{success: true}").unwrap_err();
    assert_eq!(error.category, Category::Syntax);
    assert_eq!(error.detail, "key must be a string at line 1 column 2");
}

#[test]
fn member_takes_the_first_of_two() {
    let object = Json::Object(vec![
        ("a".to_string(), Json::Bool(true)),
        ("b".to_string(), Json::Null),
        ("a".to_string(), Json::Bool(false)),
    ]);
    assert_eq!(object.member("a"), Some(&Json::Bool(true)));
    assert_eq!(object.member("b"), Some(&Json::Null));
    assert_eq!(object.member(""), None);
    assert_eq!(Json::Array(vec![]).member("a"), None);
}

#[test]
fn typed_readers_read_their_own_kind_only() {
    assert_eq!(Json::Bool(true).as_bool(), Some(true));
    assert_eq!(Json::Null.as_bool(), None);
    assert_eq!(Json::Text("x".to_string()).as_text(), Some("x"));
    assert_eq!(Json::Number("1".to_string()).as_text(), None);
    assert_eq!(Json::Array(vec![Json::Null]).as_array(), Some(&vec![Json::Null]));
    assert_eq!(Json::Object(vec![]).as_array(), None);
}

#[test]
fn as_u32_reads_whole_numbers_that_fit() {
    assert_eq!(Json::Number("0".to_string()).as_u32(), Some(0));
    assert_eq!(Json::Number("1206698".to_string()).as_u32(), Some(1206698));
    assert_eq!(Json::Number("4294967295".to_string()).as_u32(), Some(4294967295));
    assert_eq!(Json::Number("4294967296".to_string()).as_u32(), None);
    assert_eq!(Json::Number("-1".to_string()).as_u32(), None);
    assert_eq!(Json::Number("1.0".to_string()).as_u32(), None);
    assert_eq!(Json::Number("1e3".to_string()).as_u32(), None);
    assert_eq!(Json::Text("12".to_string()).as_u32(), None);
    assert_eq!(parse("42").unwrap().as_u32(), Some(42));
    assert_eq!(parse("42.0").unwrap().as_u32(), None);
    assert_eq!(parse("-0").unwrap().as_u32(), None);
}

#[test]
fn as_texts_reads_arrays_of_strings_only() {
    let texts = Json::Array(vec![Json::Text("a".to_string()), Json::Text("".to_string())]);
    assert_eq!(texts.as_texts(), Some(vec!["a".to_string(), "".to_string()]));
    assert_eq!(Json::Array(vec![]).as_texts(), Some(vec![]));
    let mixed = Json::Array(vec![Json::Text("a".to_string()), Json::Null]);
    assert_eq!(mixed.as_texts(), None);
    assert_eq!(Json::Text("a".to_string()).as_texts(), None);
}
