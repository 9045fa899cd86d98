use pact_builder::bodies::OptionalBody;
use pact_builder::content_type::{ContentType, ContentTypeHint};
use pact_builder::json::{Json, JsonField};

fn member<'a>(json: &'a Json, name: &str) -> Option<&'a Json> {
    match json {
        Json::Object(fields) => fields.iter().rev().find(|f| f.name == name).map(|f| &f.value),
        _ => None,
    }
}

fn names(json: &Json) -> Vec<String> {
    match json {
        Json::Object(fields) => fields.iter().map(|f| f.name.clone()).collect(),
        _ => Vec::new(),
    }
}

#[test]
fn display_tests() {
    assert_eq!(OptionalBody::Missing.to_string(), "Missing");
    assert_eq!(OptionalBody::Empty.to_string(), "Empty");
    assert_eq!(OptionalBody::Null.to_string(), "Null");
    assert_eq!(
        OptionalBody::Present("hello".as_bytes().to_vec(), None, None).to_string(),
        "Present(5 bytes)"
    );
    assert_eq!(
        OptionalBody::Present("\"hello\"".as_bytes().to_vec(), Some(ContentType::json()), None)
            .to_string(),
        "Present(7 bytes, application/json)"
    );
}

#[test]
fn description_counts_bytes_in_decimal() {
    let body = OptionalBody::Present(vec![0u8; 1203], None, None);
    assert_eq!(body.to_string(), "Present(1203 bytes)");
    let none = OptionalBody::Present(Vec::new(), None, None);
    assert_eq!(none.to_string(), "Present(0 bytes)");
}

#[test]
fn body_from_text_and_from_buffer() {
    assert_eq!(OptionalBody::from("").to_string(), "Empty");
    assert_eq!(OptionalBody::from("héllo").value(), Some("héllo".as_bytes().to_vec()));
    assert_eq!(OptionalBody::from_bytes(None).to_string(), "Missing");
    assert_eq!(OptionalBody::from_bytes(Some(&[])).to_string(), "Empty");
    assert_eq!(OptionalBody::from_bytes(Some(&[1, 2])).value(), Some(vec![1u8, 2]));
    assert_eq!(OptionalBody::default().to_string(), "Missing");
}

#[test]
fn accessors_of_the_four_states() {
    let mut present = OptionalBody::Present(b"abc".to_vec(), None, None);
    assert!(present.is_present());
    assert!(!present.has_content_type());
    assert!(present.content_type().is_none());
    assert_eq!(present.str_value(), "abc");
    present.set_content_type(&ContentType::json());
    assert!(present.has_content_type());
    assert_eq!(present.content_type().unwrap().to_string(), "application/json");
    for mut other in [OptionalBody::Missing, OptionalBody::Empty, OptionalBody::Null] {
        assert!(!other.is_present());
        assert_eq!(other.value(), None);
        assert_eq!(other.str_value(), "");
        other.set_content_type(&ContentType::json());
        assert!(!other.has_content_type());
    }
    let binary = OptionalBody::Present(vec![0xff, 0xfe], None, None);
    assert_eq!(binary.str_value(), "");
}

#[test]
fn canonical_form_of_a_json_body() {
    let body = OptionalBody::Present(b"{\"id\": 1}".to_vec(), Some(ContentType::json()), None);
    let canonical = body.to_v4_json();
    assert_eq!(names(&canonical), vec!["content", "contentType", "encoded"]);
    assert_eq!(member(&canonical, "content").unwrap().to_text(), "{\"id\":1}");
    assert_eq!(member(&canonical, "contentType").unwrap().to_text(), "\"application/json\"");
    assert_eq!(member(&canonical, "encoded").unwrap().to_text(), "false");
    assert_eq!(
        canonical.to_text(),
        "{\"content\":{\"id\":1},\"contentType\":\"application/json\",\"encoded\":false}"
    );
}

#[test]
fn canonical_form_of_json_that_does_not_parse() {
    let body = OptionalBody::Present(b"{\"id\": ".to_vec(), Some(ContentType::json()), None);
    let canonical = body.to_v4_json();
    assert_eq!(member(&canonical, "content").unwrap().to_text(), "\"eyJpZCI6IA==\"");
    assert_eq!(member(&canonical, "encoded").unwrap().to_text(), "\"base64\"");
}

#[test]
fn canonical_form_of_text_and_binary_bodies() {
    let text = OptionalBody::Present(b"hello".to_vec(), ContentType::parse("text/plain"), None);
    assert_eq!(
        text.to_v4_json().to_text(),
        "{\"content\":\"hello\",\"contentType\":\"text/plain\",\"encoded\":false}"
    );
    let untyped = OptionalBody::Present(b"hello".to_vec(), None, None);
    assert_eq!(
        untyped.to_v4_json().to_text(),
        "{\"content\":\"hello\",\"contentType\":\"*/*\",\"encoded\":false}"
    );
    let hinted = OptionalBody::Present(
        b"hello".to_vec(),
        ContentType::parse("text/plain"),
        Some(ContentTypeHint::Binary),
    );
    let canonical = hinted.to_v4_json();
    assert_eq!(names(&canonical), vec!["content", "contentType", "contentTypeHint", "encoded"]);
    assert_eq!(
        canonical.to_text(),
        "{\"content\":\"aGVsbG8=\",\"contentType\":\"text/plain\",\"contentTypeHint\":\"BINARY\",\"encoded\":\"base64\"}"
    );
    let text_hint = OptionalBody::Present(
        b"hi".to_vec(),
        ContentType::parse("text/plain"),
        Some(ContentTypeHint::Text),
    );
    assert_eq!(
        text_hint.to_v4_json().to_text(),
        "{\"content\":\"hi\",\"contentType\":\"text/plain\",\"contentTypeHint\":\"TEXT\",\"encoded\":false}"
    );
    let image = OptionalBody::Present(vec![1, 2, 3], ContentType::parse("image/png"), None);
    assert_eq!(
        image.to_v4_json().to_text(),
        "{\"content\":\"AQID\",\"contentType\":\"image/png\",\"encoded\":\"base64\"}"
    );
    let not_utf8 = OptionalBody::Present(vec![0xff, 0xfe], ContentType::parse("text/plain"), None);
    assert_eq!(
        not_utf8.to_v4_json().to_text(),
        "{\"content\":\"//4=\",\"contentType\":\"text/plain\",\"encoded\":\"base64\"}"
    );
}

#[test]
fn empty_body_is_exported_and_absent_body_is_not() {
    let empty = OptionalBody::from_bytes(Some(&[])).to_v4_json();
    assert_eq!(empty.to_text(), "{\"content\":\"\"}");
    let missing = OptionalBody::from_bytes(None).to_v4_json();
    assert!(matches!(missing, Json::Null));
    assert!(matches!(OptionalBody::Null.to_v4_json(), Json::Null));
    assert_ne!(empty.to_text(), missing.to_text());
    assert_eq!(OptionalBody::Empty.canonical_json().unwrap().to_text(), "{\"content\":\"\"}");
    let json = OptionalBody::from_json(&Json::parse("[1, 2]").unwrap());
    assert_eq!(json.to_string(), "Present(5 bytes, application/json;charset=UTF-8)");
    assert_eq!(
        json.canonical_json().unwrap().to_text(),
        "{\"content\":[1,2],\"contentType\":\"application/json;charset=UTF-8\",\"encoded\":false}"
    );
}

#[test]
fn content_type_parts() {
    let ct = ContentType::parse("application/hal+json;charset=UTF-8").unwrap();
    assert_eq!(ct.main_type, "application");
    assert_eq!(ct.sub_type, "hal");
    assert_eq!(ct.suffix.as_deref(), Some("json"));
    assert_eq!(ct.parameters.as_deref(), Some("charset=UTF-8"));
    assert!(ct.is_json());
    assert!(ct.is_text());
    assert!(!ct.is_xml());
    assert!(!ct.is_binary());
    assert_eq!(ct.to_string(), "application/hal+json;charset=UTF-8");
    let xml = ContentType::parse("text/xml").unwrap();
    assert!(xml.is_xml() && xml.is_text() && !xml.is_json());
    assert!(ContentType::parse("application/atom+xml").unwrap().is_xml());
    assert!(ContentType::parse("image/png").unwrap().is_binary());
    assert!(!ContentType::parse("application/octet-stream").unwrap().is_binary());
    assert!(!ContentType::parse("application/octet-stream").unwrap().is_text());
    assert!(ContentType::parse("text/json").unwrap().is_text());
    assert!(!ContentType::parse("text/json").unwrap().is_json());
    assert_eq!(ContentType::default().to_string(), "*/*");
    assert_eq!(ContentType::xml().to_string(), "application/xml");
}

#[test]
fn content_type_needs_both_types() {
    assert!(ContentType::parse("").is_none());
    assert!(ContentType::parse("json").is_none());
    assert!(ContentType::parse("/json").is_none());
    assert!(ContentType::parse("text/").is_none());
    assert!(ContentType::parse("text;a/b").is_none());
    let odd = ContentType::parse("a/+b;").unwrap();
    assert_eq!(odd.sub_type, "");
    assert_eq!(odd.suffix.as_deref(), Some("b"));
    assert_eq!(odd.parameters.as_deref(), Some(""));
    assert_eq!(odd.to_string(), "a/+b;");
}

#[test]
fn json_parses_and_prints() {
    let parsed = Json::parse("{\"b\": 1, \"a\": [true, null, \"x\", 2.5]}").unwrap();
    assert_eq!(parsed.to_text(), "{\"a\":[true,null,\"x\",2.5],\"b\":1}");
    assert_eq!(parsed.to_plain_text(), "{\"a\":[true,null,\"x\",2.5],\"b\":1}");
    assert!(Json::parse("{\"a\": ").is_none());
    assert!(Json::parse_or_message("{\"a\": ").unwrap_err().starts_with("EOF while parsing"));
    assert_eq!(Json::string("a\"b").to_text(), "\"a\\\"b\"");
    assert_eq!(Json::string("a\"b").to_plain_text(), "a\"b");
    assert_eq!(Json::parse_bytes(b"[1]").unwrap().to_text(), "[1]");
    assert!(Json::parse_bytes(&[0xff]).is_none());
    let built = Json::Object(vec![
        JsonField { name: "z".to_string(), value: Json::Null },
        JsonField { name: "a".to_string(), value: Json::Bool(true) },
    ]);
    assert_eq!(built.to_text(), "{\"a\":true,\"z\":null}");
    assert_eq!(built.clone().to_text(), built.to_text());
    assert_eq!(parsed.clone().to_text(), "{\"a\":[true,null,\"x\",2.5],\"b\":1}");
    let number = Json::Number(serde_json::Number::from(18446744073709551615u64));
    assert_eq!(number.clone().to_text(), "18446744073709551615");
}
