use vssh::json::{Json, Member};

fn member(name: &str, value: Json) -> Member {
    Member { name: String::from(name), value }
}

fn text(value: &str) -> Json {
    Json::Text(String::from(value))
}

#[test]
fn parse_reads_the_scalars() {
    assert_eq!(Json::parse("null").unwrap(), Json::Null);
    assert_eq!(Json::parse("true").unwrap(), Json::Bool(true));
    assert_eq!(Json::parse(" false ").unwrap(), Json::Bool(false));
    assert_eq!(Json::parse("\"a\"").unwrap(), text("a"));
}

#[test]
fn parse_keeps_a_number_as_text() {
    assert_eq!(Json::parse("42").unwrap(), Json::Number(String::from("42")));
    assert_eq!(Json::parse("-7").unwrap(), Json::Number(String::from("-7")));
}

#[test]
fn parse_reads_escapes() {
    assert_eq!(Json::parse("\"a\\\"b\\n\\u00e9\"").unwrap(), text("a\"b\né"));
}

#[test]
fn parse_reads_arrays_and_objects() {
    let doc = Json::parse("{\"keys\":[\"a\",\"b\"],\"n\":null}").unwrap();
    assert_eq!(
        doc,
        Json::Object(vec![
            member("keys", Json::Array(vec![text("a"), text("b")])),
            member("n", Json::Null),
        ])
    );
}

#[test]
fn parse_reads_nested_objects() {
    let doc = Json::parse("{\"data\":{\"signed_key\":\"k\"}}").unwrap();
    assert_eq!(doc.get("data").unwrap().get("signed_key"), Some(&text("k")));
}

#[test]
fn parse_reports_bad_text() {
    assert!(Json::parse("").is_err());
    assert!(Json::parse("{").is_err());
    assert!(Json::parse("{\"a\":}").is_err());
    assert!(Json::parse("nul").is_err());
    assert!(Json::parse("{} x").is_err());
}

#[test]
fn parse_reports_where_the_text_is_bad() {
    let message = Json::parse("{\"a\": tru}").unwrap_err();
    assert!(message.contains("line 1"));
}

#[test]
fn parse_keeps_the_later_of_two_members_of_one_name() {
    let doc = Json::parse("{\"a\":\"1\",\"a\":\"2\"}").unwrap();
    assert_eq!(doc.get("a"), Some(&text("2")));
}

#[test]
fn get_finds_the_first_member_of_a_name() {
    let doc = Json::Object(vec![member("a", text("1")), member("b", text("2")), member("a", text("3"))]);
    assert_eq!(doc.get("a"), Some(&text("1")));
    assert_eq!(doc.get("b"), Some(&text("2")));
    assert_eq!(doc.get("c"), None);
}

#[test]
fn get_finds_nothing_in_what_is_no_object() {
    assert_eq!(text("a").get("a"), None);
    assert_eq!(Json::Array(vec![text("a")]).get("a"), None);
    assert_eq!(Json::Null.get(""), None);
}

#[test]
fn accessors_tell_the_kinds_apart() {
    assert_eq!(text("a").as_text(), Some(&String::from("a")));
    assert_eq!(Json::Null.as_text(), None);
    assert_eq!(Json::Bool(true).as_bool(), Some(true));
    assert_eq!(text("true").as_bool(), None);
    assert!(Json::Null.is_null());
    assert!(!Json::Bool(false).is_null());
    assert!(Json::Array(vec![]).as_array().is_some());
    assert!(Json::Object(vec![]).as_array().is_none());
    assert!(Json::Object(vec![]).as_object().is_some());
    assert!(Json::Array(vec![]).as_object().is_none());
}

#[test]
fn to_text_writes_the_scalars() {
    assert_eq!(Json::Null.to_text(), "null");
    assert_eq!(Json::Bool(true).to_text(), "true");
    assert_eq!(Json::Bool(false).to_text(), "false");
    assert_eq!(Json::Number(String::from("12")).to_text(), "12");
    assert_eq!(text("abc").to_text(), "\"abc\"");
}

#[test]
fn to_text_escapes_what_json_wants_escaped() {
    assert_eq!(text("a\"b").to_text(), "\"a\\\"b\"");
    assert_eq!(text("a\\b").to_text(), "\"a\\\\b\"");
    assert_eq!(text("line\nbreak\ttab").to_text(), "\"line\\nbreak\\ttab\"");
    assert_eq!(text("").to_text(), "\"\"");
}

#[test]
fn to_text_writes_arrays_compactly() {
    assert_eq!(Json::Array(vec![]).to_text(), "[]");
    assert_eq!(Json::Array(vec![text("a")]).to_text(), "[\"a\"]");
    assert_eq!(
        Json::Array(vec![text("a"), Json::Null, Json::Bool(true)]).to_text(),
        "[\"a\",null,true]"
    );
}

#[test]
fn to_text_writes_objects_compactly_and_in_order() {
    assert_eq!(Json::Object(vec![]).to_text(), "{}");
    assert_eq!(
        Json::Object(vec![member("b", text("1")), member("a", Json::Array(vec![]))]).to_text(),
        "{\"b\":\"1\",\"a\":[]}"
    );
}

#[test]
fn to_text_escapes_member_names() {
    assert_eq!(Json::Object(vec![member("a\"b", Json::Null)]).to_text(), "{\"a\\\"b\":null}");
}

#[test]
fn text_reads_back_as_the_document() {
    let doc = Json::Object(vec![
        member("a", Json::Array(vec![text("x\"y"), Json::Bool(false), Json::Null])),
        member("b", Json::Object(vec![member("c", Json::Number(String::from("5")))])),
    ]);
    assert_eq!(Json::parse(doc.to_text().as_str()).unwrap(), doc);
}

#[test]
fn to_text_agrees_with_serde_json() {
    let source = "{\"a\":[\"x\\\"y\",false,null],\"b\":{\"c\":5},\"d\":\"\\u00e9\\n\"}";
    let value: serde_json::Value = serde_json::from_str(source).unwrap();
    assert_eq!(Json::parse(source).unwrap().to_text(), value.to_string());
}
