use del_rs::json::{parse_json_text, to_json_text, Json};

fn roundtrip_text(text: &str) -> String {
    let j = parse_json_text(text).expect("fixture must parse");
    to_json_text(&j)
}

#[test]
fn parse_empty_input_fails() {
    assert!(parse_json_text("").is_none());
    assert!(parse_json_text("   ").is_none());
}

#[test]
fn parse_empty_object_and_array() {
    assert_eq!(parse_json_text("{}"), Some(Json::Obj(vec![])));
    assert_eq!(parse_json_text(" [ ] "), Some(Json::Arr(vec![])));
}

#[test]
fn parse_literals() {
    assert_eq!(parse_json_text("true"), Some(Json::Bool(true)));
    assert_eq!(parse_json_text("false"), Some(Json::Bool(false)));
    assert_eq!(parse_json_text("null"), Some(Json::Null));
    assert_eq!(parse_json_text("42"), Some(Json::Num(42)));
}

#[test]
fn parse_number_bounds() {
    assert_eq!(
        parse_json_text("18446744073709551615"),
        Some(Json::Num(u64::MAX))
    );
    assert!(parse_json_text("18446744073709551616").is_none());
    assert!(parse_json_text("-5").is_none());
    assert!(parse_json_text("1.5").is_none());
}

#[test]
fn parse_rejects_trailing_garbage() {
    assert!(parse_json_text("42 x").is_none());
    assert!(parse_json_text("{} {}").is_none());
}

#[test]
fn parse_string_escapes() {
    assert_eq!(
        parse_json_text(r#""a\"b\\c\nd""#),
        Some(Json::Str("a\"b\\c\nd".to_string()))
    );
    assert!(parse_json_text(r#""\u0041""#).is_none());
    assert!(parse_json_text("\"a\nb\"").is_none());
}

#[test]
fn parse_nested_structures() {
    let text = r#" { "a" : [ 1 , "two" , null , { "b" : false } ] } "#;
    let j = parse_json_text(text).expect("must parse");
    assert_eq!(
        j,
        Json::Obj(vec![(
            "a".to_string(),
            Json::Arr(vec![
                Json::Num(1),
                Json::Str("two".to_string()),
                Json::Null,
                Json::Obj(vec![("b".to_string(), Json::Bool(false))]),
            ])
        )])
    );
}

#[test]
fn serializer_writes_compact_text() {
    let j = Json::Obj(vec![
        ("total".to_string(), Json::Num(5)),
        ("name".to_string(), Json::Str("a\"b".to_string())),
        ("tags".to_string(), Json::Arr(vec![Json::Str("x".to_string()), Json::Str("y".to_string())])),
        ("gone".to_string(), Json::Null),
    ]);
    assert_eq!(
        to_json_text(&j),
        r#"{"total":5,"name":"a\"b","tags":["x","y"],"gone":null}"#
    );
}

#[test]
fn text_round_trip_is_stable() {
    let text = r#"{"error":false,"status":200,"servers":{"total":7}}"#;
    let once = roundtrip_text(text);
    assert_eq!(once, text);
    let twice = roundtrip_text(&once);
    assert_eq!(twice, once);
}
