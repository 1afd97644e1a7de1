use chat_relay::completion::{extract_reply, parse_reply, ReplyError};

#[test]
fn well_formed_response_yields_reply() {
    let body = "{\"choices\":[{\"message\":{\"role\":\"assistant\",\
                \"content\":\"Hi there!\"}}]}";
    assert_eq!(parse_reply(body), Ok("Hi there!".to_string()));
}

#[test]
fn extract_reads_only_the_first_choice() {
    let body = "{\"choices\":[{\"message\":{\"content\":\"first\"}},\
                {\"message\":{\"content\":\"second\"}}]}";
    let v: serde_json::Value = serde_json::from_str(body).unwrap();
    assert_eq!(extract_reply(&v), Ok("first".to_string()));
}

#[test]
fn non_json_body_is_not_json() {
    assert_eq!(parse_reply("not json at all"), Err(ReplyError::NotJson));
}

#[test]
fn missing_choices_member() {
    assert_eq!(parse_reply("{\"id\":\"x\"}"), Err(ReplyError::MissingChoices));
}

#[test]
fn empty_choices_array() {
    assert_eq!(parse_reply("{\"choices\":[]}"), Err(ReplyError::MissingFirstChoice));
}

#[test]
fn choices_not_an_array() {
    assert_eq!(parse_reply("{\"choices\":7}"), Err(ReplyError::MissingFirstChoice));
}

#[test]
fn missing_message_member() {
    assert_eq!(parse_reply("{\"choices\":[{\"index\":0}]}"), Err(ReplyError::MissingMessage));
}

#[test]
fn missing_content_member() {
    assert_eq!(
        parse_reply("{\"choices\":[{\"message\":{\"role\":\"assistant\"}}]}"),
        Err(ReplyError::MissingContent)
    );
}

#[test]
fn content_that_is_no_string() {
    assert_eq!(
        parse_reply("{\"choices\":[{\"message\":{\"content\":42}}]}"),
        Err(ReplyError::NotText)
    );
}
