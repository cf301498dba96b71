use order_lookup::document::{json_from_value, parse_document};
use order_lookup::json::{member, Float, Json, JsonNumber};

fn float(x: f64) -> Float {
    Float { bits: x.to_bits() }
}

#[test]
fn scalars_are_read() {
    assert_eq!(parse_document("null").unwrap(), Json::Null);
    assert_eq!(parse_document("true").unwrap(), Json::Bool(true));
    assert_eq!(parse_document("false").unwrap(), Json::Bool(false));
    assert_eq!(parse_document(r#""a\né""#).unwrap(), Json::Text("a\n\u{e9}".to_string()));
    assert_eq!(parse_document(" \"\" ").unwrap(), Json::Text(String::new()));
}

#[test]
fn numbers_offer_every_reading_they_have() {
    assert_eq!(
        parse_document("5").unwrap(),
        Json::Number(JsonNumber { unsigned: Some(5), signed: Some(5), float: Some(float(5.0)) })
    );
    assert_eq!(
        parse_document("-5").unwrap(),
        Json::Number(JsonNumber { unsigned: None, signed: Some(-5), float: Some(float(-5.0)) })
    );
    assert_eq!(
        parse_document("9223372036854775808").unwrap(),
        Json::Number(JsonNumber {
            unsigned: Some(9223372036854775808),
            signed: None,
            float: Some(float(9223372036854775808.0)),
        })
    );
    assert_eq!(
        parse_document("-9223372036854775808").unwrap(),
        Json::Number(JsonNumber {
            unsigned: None,
            signed: Some(i64::MIN),
            float: Some(float(-9223372036854775808.0)),
        })
    );
    assert_eq!(
        parse_document("5.0").unwrap(),
        Json::Number(JsonNumber { unsigned: None, signed: None, float: Some(float(5.0)) })
    );
    assert_eq!(
        parse_document("1e30").unwrap(),
        Json::Number(JsonNumber { unsigned: None, signed: None, float: Some(float(1e30)) })
    );
}

#[test]
fn arrays_keep_their_order() {
    assert_eq!(parse_document("[]").unwrap(), Json::Array(vec![]));
    assert_eq!(
        parse_document(r#"[null, [true], "x"]"#).unwrap(),
        Json::Array(vec![
            Json::Null,
            Json::Array(vec![Json::Bool(true)]),
            Json::Text("x".to_string()),
        ])
    );
}

#[test]
fn objects_hold_each_name_once_in_the_order_of_the_names() {
    assert_eq!(parse_document("{}").unwrap(), Json::Object(vec![]));
    assert_eq!(
        parse_document(r#"{"b": 1, "a": {"c": []}, "b": null}"#).unwrap(),
        Json::Object(vec![
            ("a".to_string(), Json::Object(vec![("c".to_string(), Json::Array(vec![]))])),
            ("b".to_string(), Json::Null),
        ])
    );
}

#[test]
fn what_is_not_json_is_refused() {
    for text in ["", "{", "[1,]", "nul", "'a'", "1 2", "{\"a\":}", "NaN", "01"] {
        assert!(parse_document(text).is_err(), "{:?}", text);
    }
    let deep = "[".repeat(200) + &"]".repeat(200);
    assert!(parse_document(&deep).is_err());
}

#[test]
fn a_value_is_rebuilt_as_it_is() {
    let mut inner = serde_json::Map::new();
    inner.insert("n".to_string(), serde_json::Value::from(-2i64));
    inner.insert("t".to_string(), serde_json::Value::from("text"));
    let value = serde_json::Value::Array(vec![
        serde_json::Value::Object(inner),
        serde_json::Value::Null,
        serde_json::Value::from(false),
    ]);
    assert_eq!(
        json_from_value(&value),
        Json::Array(vec![
            Json::Object(vec![
                (
                    "n".to_string(),
                    Json::Number(JsonNumber {
                        unsigned: None,
                        signed: Some(-2),
                        float: Some(float(-2.0)),
                    }),
                ),
                ("t".to_string(), Json::Text("text".to_string())),
            ]),
            Json::Null,
            Json::Bool(false),
        ])
    );
    assert_eq!(json_from_value(&value), parse_document(&value.to_string()).unwrap());
}

#[test]
fn a_copy_is_equal_and_apart() {
    let document = parse_document(r#"{"a":[1,"x",{"b":null}],"c":2.5}"#).unwrap();
    let copy = document.duplicate();
    assert_eq!(copy, document);
    drop(document);
    assert_eq!(copy, parse_document(r#"{"c":2.5,"a":[1,"x",{"b":null}]}"#).unwrap());
}

#[test]
fn a_member_is_found_by_its_name() {
    let members = vec![
        ("a".to_string(), Json::Bool(true)),
        ("ab".to_string(), Json::Null),
        ("a".to_string(), Json::Bool(false)),
    ];
    assert_eq!(member(&members, "a"), Some(&Json::Bool(true)));
    assert_eq!(member(&members, "ab"), Some(&Json::Null));
    assert_eq!(member(&members, "b"), None);
    assert_eq!(member(&members, ""), None);
    assert_eq!(member(&vec![], "a"), None);
}
