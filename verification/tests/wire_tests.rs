use chat_relay::transcript::{Entry, Role};
use chat_relay::wire::{model_name, request_body};

fn entry(role: Role, text: &str) -> Entry {
    Entry { role, content: text.to_string() }
}

#[test]
fn model_name_is_fixed() {
    assert_eq!(model_name(), "gpt-3.5-turbo");
}

#[test]
fn empty_transcript_serializes_to_empty_array() {
    let body = request_body("gpt-3.5-turbo", &vec![]);
    assert_eq!(body, "{\"model\":\"gpt-3.5-turbo\",\"messages\":[]}");
}

#[test]
fn two_entry_transcript_serializes_in_order() {
    let transcript = vec![
        entry(Role::System, "be helpful"),
        entry(Role::User, "Hello"),
    ];
    let body = request_body("gpt-3.5-turbo", &transcript);
    assert_eq!(
        body,
        "{\"model\":\"gpt-3.5-turbo\",\"messages\":[\
         {\"role\":\"system\",\"content\":\"be helpful\"},\
         {\"role\":\"user\",\"content\":\"Hello\"}]}"
    );
}

#[test]
fn assistant_role_uses_its_wire_name() {
    let transcript = vec![entry(Role::Assistant, "hi")];
    let body = request_body("m", &transcript);
    assert_eq!(body, "{\"model\":\"m\",\"messages\":[{\"role\":\"assistant\",\"content\":\"hi\"}]}");
}

#[test]
fn special_characters_are_escaped() {
    let transcript = vec![entry(Role::User, "a\"b\\c\nd\re\tf\u{1}g")];
    let body = request_body("m", &transcript);
    assert_eq!(
        body,
        "{\"model\":\"m\",\"messages\":[{\"role\":\"user\",\"content\":\
         \"a\\\"b\\\\c\\nd\\re\\tf\\u0001g\"}]}"
    );
}

#[test]
fn request_body_is_json_serde_can_read_back() {
    let transcript = vec![
        entry(Role::System, "quote \" slash \\ line\nbreak"),
        entry(Role::User, "control \u{1f} char"),
    ];
    let body = request_body("gpt-3.5-turbo", &transcript);
    let v: serde_json::Value = serde_json::from_str(&body).expect("body must be valid JSON");
    assert_eq!(v["model"].as_str().unwrap(), "gpt-3.5-turbo");
    let messages = v["messages"].as_array().unwrap();
    assert_eq!(messages.len(), 2);
    assert_eq!(messages[0]["role"].as_str().unwrap(), "system");
    assert_eq!(
        messages[0]["content"].as_str().unwrap(),
        "quote \" slash \\ line\nbreak"
    );
    assert_eq!(messages[1]["role"].as_str().unwrap(), "user");
    assert_eq!(messages[1]["content"].as_str().unwrap(), "control \u{1f} char");
}
