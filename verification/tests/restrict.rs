use botline::methods::{permissions_text, GetUpdates, Method, RestrictChatMember};
use botline::request::{RequestBody, RequestMethod};
use botline::types::chat::{ChatId, ChatPermissions};
use serde_json::Value;

fn flags(pairs: &[(&str, bool)]) -> Value {
    let mut members = serde_json::Map::new();
    for (name, flag) in pairs {
        members.insert(String::from(*name), Value::Bool(*flag));
    }
    Value::Object(members)
}

#[test]
fn restrict_chat_member_restrict_all() {
    let request = RestrictChatMember::new(1, 2)
        .restrict_all()
        .until_date(100)
        .into_request()
        .unwrap()
        .build("base-url", "token");
    assert_eq!(request.method, RequestMethod::Post);
    assert_eq!(request.url, "base-url/token/restrictChatMember");
    if let RequestBody::Json(data) = request.body {
        let data: Value = serde_json::from_slice(&data).unwrap();
        assert_eq!(data["chat_id"], 1);
        assert_eq!(data["user_id"], 2);
        assert_eq!(data["until_date"], 100);
        assert_eq!(
            data["permissions"],
            flags(&[
                ("can_send_messages", false),
                ("can_send_media_messages", false),
                ("can_send_polls", false),
                ("can_send_other_messages", false),
                ("can_add_web_page_previews", false),
                ("can_change_info", false),
                ("can_invite_users", false),
                ("can_pin_messages", false),
            ])
        );
    } else {
        panic!("Unexpected request body: {:?}", request.body);
    }
}

#[test]
fn restrict_chat_member_allow_all() {
    let request = RestrictChatMember::new(1, 2)
        .allow_all()
        .until_date(100)
        .into_request()
        .unwrap()
        .build("base-url", "token");
    assert_eq!(request.method, RequestMethod::Post);
    assert_eq!(request.url, "base-url/token/restrictChatMember");
    if let RequestBody::Json(data) = request.body {
        let data: Value = serde_json::from_slice(&data).unwrap();
        assert_eq!(data["chat_id"], 1);
        assert_eq!(data["user_id"], 2);
        assert_eq!(data["until_date"], 100);
        assert_eq!(
            data["permissions"],
            flags(&[
                ("can_send_messages", true),
                ("can_send_media_messages", true),
                ("can_send_polls", true),
                ("can_send_other_messages", true),
                ("can_add_web_page_previews", true),
                ("can_change_info", true),
                ("can_invite_users", true),
                ("can_pin_messages", true),
            ])
        );
    } else {
        panic!("Unexpected request body: {:?}", request.body);
    }
}

#[test]
fn restrict_chat_member_custom() {
    let request = RestrictChatMember::new(1, 2)
        .can_send_messages(true)
        .can_send_media_messages(false)
        .can_send_other_messages(true)
        .can_add_web_page_previews(false)
        .until_date(100)
        .into_request()
        .unwrap()
        .build("base-url", "token");
    assert_eq!(request.method, RequestMethod::Post);
    assert_eq!(request.url, "base-url/token/restrictChatMember");
    if let RequestBody::Json(data) = request.body {
        let data: Value = serde_json::from_slice(&data).unwrap();
        assert_eq!(data["chat_id"], 1);
        assert_eq!(data["user_id"], 2);
        assert_eq!(data["until_date"], 100);
        assert_eq!(
            data["permissions"],
            flags(&[
                ("can_send_messages", true),
                ("can_send_media_messages", false),
                ("can_send_other_messages", true),
                ("can_add_web_page_previews", false),
            ])
        );
    } else {
        panic!("Unexpected request body: {:?}", request.body);
    }
}

fn body_text(body: RequestBody) -> String {
    match body {
        RequestBody::Json(data) => String::from_utf8(data).unwrap(),
        other => panic!("Unexpected request body: {:?}", other),
    }
}

#[test]
fn restrict_chat_member_exact_body() {
    let request = RestrictChatMember::new(-1001, 2)
        .can_send_polls_off_and_pin_on()
        .into_request()
        .unwrap();
    assert_eq!(request.endpoint, "restrictChatMember");
    assert_eq!(
        body_text(request.body),
        "{\"chat_id\":-1001,\"user_id\":2,\"permissions\":{\"can_send_polls\":false,\"can_pin_messages\":true}}"
    );
}

trait Custom {
    fn can_send_polls_off_and_pin_on(self) -> Self;
}

impl Custom for RestrictChatMember {
    fn can_send_polls_off_and_pin_on(self) -> Self {
        self.with_permissions(
            ChatPermissions::default().with_send_polls(false).with_pin_messages(true),
        )
    }
}

#[test]
fn unset_fields_are_absent_and_false_is_written() {
    let unset = RestrictChatMember::new(1, 2).into_request().unwrap();
    assert_eq!(body_text(unset.body), "{\"chat_id\":1,\"user_id\":2,\"permissions\":{}}");
    let denied = RestrictChatMember::new(1, 2).can_send_messages(false).into_request().unwrap();
    assert_eq!(
        body_text(denied.body),
        "{\"chat_id\":1,\"user_id\":2,\"permissions\":{\"can_send_messages\":false}}"
    );
    let parsed: Value = serde_json::from_str(&permissions_text(&ChatPermissions::default()))
        .unwrap();
    assert_eq!(parsed.get("can_send_messages"), None);
    let parsed: Value = serde_json::from_str(&permissions_text(
        &ChatPermissions::default().with_send_messages(false),
    ))
    .unwrap();
    assert_eq!(parsed.get("can_send_messages"), Some(&Value::Bool(false)));
}

#[test]
fn restrict_chat_member_by_username() {
    let request = RestrictChatMember::new(String::from("@chan\"nel\n"), 2)
        .into_request()
        .unwrap();
    let text = body_text(request.body);
    assert_eq!(
        text,
        "{\"chat_id\":\"@chan\\\"nel\\n\",\"user_id\":2,\"permissions\":{}}"
    );
    let data: Value = serde_json::from_str(&text).unwrap();
    assert_eq!(data["chat_id"], "@chan\"nel\n");
}

#[test]
fn request_with_hands_on_the_failure() {
    let method = RestrictChatMember::new(ChatId::Id(1), 2);
    let failure = botline::json::EncodingError { message: String::from("no") };
    assert_eq!(method.request_with(Err(failure.clone())), Err(failure));
    let request = method.request_with(Ok(String::from("\"x\""))).unwrap();
    assert_eq!(
        body_text(request.body),
        "{\"chat_id\":\"x\",\"user_id\":2,\"permissions\":{}}"
    );
}

#[test]
fn chat_permissions_builders() {
    assert_eq!(ChatPermissions::default().can_send_messages, None);
    assert_eq!(ChatPermissions::restricted().can_pin_messages, Some(false));
    assert_eq!(ChatPermissions::allowed().can_change_info, Some(true));
    let p = ChatPermissions::default()
        .with_send_messages(true)
        .with_send_media_messages(false)
        .with_send_polls(true)
        .with_send_other_messages(false)
        .with_add_web_page_previews(true)
        .with_change_info(false)
        .with_invite_users(true)
        .with_pin_messages(false);
    assert_eq!(
        permissions_text(&p),
        "{\"can_send_messages\":true,\"can_send_media_messages\":false,\"can_send_polls\":true,\"can_send_other_messages\":false,\"can_add_web_page_previews\":true,\"can_change_info\":false,\"can_invite_users\":true,\"can_pin_messages\":false}"
    );
    assert_eq!(ChatId::from(5), ChatId::Id(5));
    assert_eq!(ChatId::from(String::from("@a")), ChatId::Username(String::from("@a")));
}

#[test]
fn get_updates_requests() {
    let request = GetUpdates::new().into_request().unwrap().build("https://host", "T");
    assert_eq!(request.url, "https://host/T/getUpdates");
    assert_eq!(request.method, RequestMethod::Post);
    assert_eq!(body_text(request.body), "{}");
    let request = GetUpdates::poll(8, 30).into_request().unwrap();
    assert_eq!(body_text(request.body), "{\"offset\":8,\"timeout\":30}");
    let request = GetUpdates::new().limit(5).timeout(0).offset(-1).into_request().unwrap();
    assert_eq!(body_text(request.body), "{\"offset\":-1,\"limit\":5,\"timeout\":0}");
    let request = GetUpdates::poll(0, u64::MAX).into_request().unwrap();
    assert_eq!(body_text(request.body), "{\"offset\":0,\"timeout\":9223372036854775807}");
}
