//! The JSON value model: serialization, parsing, and their round trip.

use dropbox_rs::json::{json_from_str, json_to_string, Json};

fn obj(fields: Vec<(&str, Json)>) -> Json {
    Json::Obj(fields.into_iter().map(|(k, v)| (k.to_owned(), v)).collect())
}

fn s(t: &str) -> Json {
    Json::Str(t.to_owned())
}

#[test]
fn serializes_canonical_text() {
    let j = obj(vec![
        ("doc_id", s("abc")),
        ("revision", Json::Int(-42)),
        ("flags", Json::Arr(vec![Json::Bool(true), Json::Null])),
    ]);
    assert_eq!(
        json_to_string(&j),
        r#"{"doc_id":"abc","revision":-42,"flags":[true,null]}"#
    );
}

#[test]
fn escapes_strings() {
    let j = s("a\"b\\c\nd\te\u{1}");
    assert_eq!(json_to_string(&j), "\"a\\\"b\\\\c\\nd\\te\\u0001\"");
}

#[test]
fn parses_with_whitespace_and_escapes() {
    let text = " { \"k\" :\t\"a\\u0041\\n\" , \"n\" : [ 1 , -2 ] } ";
    let j = json_from_str(text).expect("well-formed input");
    match &j {
        Json::Obj(fields) => {
            assert_eq!(fields.len(), 2);
            assert_eq!(fields[0].0, "k");
            assert!(matches!(&fields[0].1, Json::Str(v) if v == "aA\n"));
            match &fields[1].1 {
                Json::Arr(elems) => {
                    assert!(matches!(elems[0], Json::Int(1)));
                    assert!(matches!(elems[1], Json::Int(-2)));
                }
                _ => panic!("expected an array"),
            }
        }
        _ => panic!("expected an object"),
    }
}

#[test]
fn parses_surrogate_pairs() {
    let j = json_from_str("\"\\ud83d\\ude00\"").expect("paired surrogates are one character");
    assert!(matches!(j, Json::Str(v) if v == "\u{1f600}"));
    assert!(json_from_str("\"\\ud83d\"").is_none());
}

#[test]
fn parses_integer_bounds() {
    assert!(matches!(
        json_from_str("-9223372036854775808"),
        Some(Json::Int(i64::MIN))
    ));
    assert!(matches!(
        json_from_str("9223372036854775807"),
        Some(Json::Int(i64::MAX))
    ));
    assert!(json_from_str("9223372036854775808").is_none());
}

#[test]
fn rejects_non_integers_and_malformed_text() {
    assert!(json_from_str("1.5").is_none());
    assert!(json_from_str("1e3").is_none());
    assert!(json_from_str("01").is_none());
    assert!(json_from_str("{\"a\":}").is_none());
    assert!(json_from_str("[1,]").is_none());
    assert!(json_from_str("true false").is_none());
    assert!(json_from_str("").is_none());
}

#[test]
fn round_trips_through_text() {
    let j = obj(vec![
        ("title", s("quote \" and \\ and control \u{2}")),
        ("ids", Json::Arr(vec![s("a"), s("b")])),
        ("n", Json::Int(0)),
        ("deep", obj(vec![("inner", Json::Null)])),
    ]);
    let text = json_to_string(&j);
    let back = json_from_str(&text).expect("canonical text parses");
    assert_eq!(json_to_string(&back), text);
}

#[test]
fn agrees_with_an_independent_json_reader() {
    let j = obj(vec![
        ("k", s("v alue\n")),
        ("arr", Json::Arr(vec![Json::Int(7), Json::Bool(false)])),
    ]);
    let text = json_to_string(&j);
    let v: serde_json::Value = serde_json::from_str(&text).expect("other readers accept our text");
    assert_eq!(v["k"], serde_json::Value::String("v alue\n".to_owned()));
    assert_eq!(v["arr"][0], serde_json::Value::from(7));
}
