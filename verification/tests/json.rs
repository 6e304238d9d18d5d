//! JSON values as the library reads and builds them.

use openai::items::FunctionArguments;
use openai::json::{Json, Number};
use openai::metadata::Metadata;
use openai::stream::data_payload;

#[test]
fn every_sort_of_value_is_read() {
    let value = Json::parse(
        r#"{"z": null, "a": true, "n": 7, "below": -3, "part": 2.5, "text": "é\n", "list": [1, [2]]}"#,
    )
    .unwrap();
    assert!(value.is_object());
    assert!(value.get("z").unwrap().is_null());
    assert_eq!(value.get("a"), Some(&Json::Bool(true)));
    assert_eq!(value.get("n").unwrap().as_u64(), Some(7));
    assert_eq!(value.get("below"), Some(&Json::Number(Number::NegInt(-3))));
    assert_eq!(value.get("part"), Some(&Json::Number(Number::Float("2.5".to_owned()))));
    assert_eq!(value.str_at("text"), Some("é\n"));
    assert_eq!(
        value.array_at("list").unwrap(),
        &vec![Json::whole(1), Json::array(vec![Json::whole(2)])]
    );
    assert_eq!(value.get("missing"), None);
    assert_eq!(value.str_at("n"), None, "a number is not a text");
    assert_eq!(value.array_at("a"), None, "a truth value is not a list");
}

#[test]
fn the_largest_and_smallest_integers_are_read_exactly() {
    let value = Json::parse("[18446744073709551615, -9223372036854775808, 0]").unwrap();
    assert_eq!(
        value,
        Json::array(vec![
            Json::whole(u64::MAX),
            Json::Number(Number::NegInt(i64::MIN)),
            Json::whole(0)
        ])
    );
}

#[test]
fn a_text_that_is_not_json_says_where() {
    let error = Json::parse("{\n  \"a\": }").unwrap_err();
    assert_eq!((error.line, error.column), (2, 8));
    assert!(error.message.contains("line 2 column 8"), "{}", error.message);
    assert!(Json::parse("").is_err());
}

#[test]
fn a_repeated_name_keeps_its_last_value() {
    let value = Json::parse(r#"{"a": 1, "a": 2}"#).unwrap();
    assert_eq!(value, Json::object(vec![("a".to_owned(), Json::whole(2))]));
}

#[test]
fn a_copy_holds_what_the_value_holds() {
    let value = Json::parse(r#"{"a": [1, -1, 1.5, "x", null, {"b": false}]}"#).unwrap();
    assert_eq!(value.clone(), value);
}

#[test]
fn blank_arguments_are_the_empty_object_whatever_the_white_space() {
    for blank in ["", " ", "\t\r\n", "\u{3000}\u{a0}\u{2028}"] {
        assert_eq!(FunctionArguments::from_wire(blank).decode().unwrap(), Json::object(vec![]));
    }
    for text in ["\u{200b}", " x ", "{"] {
        assert!(FunctionArguments::from_wire(text).decode().is_err(), "{text:?} is not blank");
    }
    assert_eq!(FunctionArguments::from_wire(" 4 ").decode().unwrap(), Json::whole(4));
}

#[test]
fn only_the_field_name_and_one_space_are_framing() {
    assert_eq!(data_payload("data:"), Some(""));
    assert_eq!(data_payload("data: "), Some(""));
    assert_eq!(data_payload("data:x: data:y"), Some("x: data:y"));
    assert_eq!(data_payload(" data: x"), None);
    assert_eq!(data_payload("dat"), None);
}

#[test]
fn metadata_orders_by_code_point() {
    let given = ["é", "b", "a", "ab", "B", "\u{1f600}", "\u{ffff}"];
    let pairs = given.iter().map(|key| (key.to_string(), String::new())).collect();
    let metadata = Metadata::new(pairs).unwrap();
    let keys: Vec<&str> = metadata.pairs().into_iter().map(|(key, _)| key).collect();
    assert_eq!(keys, ["B", "a", "ab", "b", "é", "\u{ffff}", "\u{1f600}"]);
}

#[test]
fn of_two_pairs_with_one_key_the_later_stands() {
    let pairs = vec![
        ("k".to_owned(), "first".to_owned()),
        ("j".to_owned(), "other".to_owned()),
        ("k".to_owned(), "second".to_owned()),
    ];
    let metadata = Metadata::new(pairs).unwrap();
    assert_eq!(metadata.pairs(), vec![("j", "other"), ("k", "second")]);
    assert_eq!(metadata.clone(), metadata);
    assert!(Metadata::default().is_empty());
}
