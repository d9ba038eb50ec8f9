use botline::json::{string_text, ObjectWriter};
use botline::request::{FormPart, RequestBody, RequestBuilder, RequestMethod};

#[test]
fn string_text_quotes_and_escapes() {
    assert_eq!(string_text("abc").unwrap(), "\"abc\"");
    assert_eq!(string_text("").unwrap(), "\"\"");
    assert_eq!(string_text("a\"b\\c").unwrap(), "\"a\\\"b\\\\c\"");
    assert_eq!(string_text("line\nbreak\ttab").unwrap(), "\"line\\nbreak\\ttab\"");
    assert_eq!(string_text("\u{1}").unwrap(), "\"\\u0001\"");
    assert_eq!(string_text("héllo").unwrap(), "\"héllo\"");
}

#[test]
fn object_writer_writes_members_in_order() {
    let empty = ObjectWriter::new();
    assert_eq!(empty.finish(), "{}");
    let mut w = ObjectWriter::new();
    w.integer("a", -7);
    w.boolean("b", false);
    w.raw("c", "[1,2]");
    w.optional_boolean("d", None);
    w.optional_boolean("e", Some(true));
    w.optional_number("f", None);
    w.optional_number("g", Some(0));
    assert_eq!(w.finish(), "{\"a\":-7,\"b\":false,\"c\":[1,2],\"e\":true,\"g\":0}");
}

#[test]
fn request_builders() {
    let request = RequestBuilder::empty("getMe");
    assert_eq!(request.endpoint, "getMe");
    assert_eq!(request.method, RequestMethod::Get);
    assert_eq!(request.body, RequestBody::Empty);
    let built = request.build("http://localhost:8080", "123:abc");
    assert_eq!(built.url, "http://localhost:8080/123:abc/getMe");
    assert_eq!(built.method, RequestMethod::Get);
    assert_eq!(built.body, RequestBody::Empty);

    let request = RequestBuilder::json("sendMessage", "{\"text\":\"é\"}");
    assert_eq!(request.method, RequestMethod::Post);
    assert_eq!(request.body, RequestBody::Json("{\"text\":\"é\"}".as_bytes().to_vec()));

    let parts = vec![FormPart { name: String::from("chat_id"), value: String::from("1") }];
    let request = RequestBuilder::form("sendDocument", parts.clone());
    assert_eq!(request.method, RequestMethod::Post);
    assert_eq!(request.body, RequestBody::Form(parts));
}

#[test]
fn object_writer_quotes_names() {
    let mut w = ObjectWriter::new();
    w.integer("plain_name", 1);
    w.boolean("needs \"quoting\"\n", true);
    let text = w.finish();
    assert_eq!(text, "{\"plain_name\":1,\"needs \\\"quoting\\\"\\n\":true}");
    let value: serde_json::Value = serde_json::from_str(&text).unwrap();
    assert_eq!(value["plain_name"], 1);
    assert_eq!(value["needs \"quoting\"\n"], true);
}

#[test]
fn address_is_base_credential_endpoint() {
    let built = RequestBuilder::empty("getMe").build("base-url", "token");
    assert_eq!(built.url, "base-url/token/getMe");
}
