use copilot_provider::json::{Json, JsonObject};
use copilot_provider::response::{
    arguments_or_empty, provider_response, raw_response, response_content,
};
use copilot_provider::tools::CapturedToolCall;

fn text(s: &str) -> Json {
    Json::String(s.to_string())
}

fn object(entries: Vec<(&str, Json)>) -> Json {
    let mut object = JsonObject::new();
    for (key, value) in entries {
        object = object.with(key, value);
    }
    Json::Object(object)
}

fn call(id: &str, name: &str, arguments: Json) -> CapturedToolCall {
    CapturedToolCall { id: id.to_string(), name: name.to_string(), arguments }
}

#[test]
fn an_answer_without_calls_is_its_text() {
    let event = object(vec![("content", text(" hi "))]);
    let response = provider_response("s-1", Some(event), &vec![]);
    assert_eq!(response.content.as_str(), Some(" hi "));
    assert_eq!(
        response.raw.to_text(),
        "{\"provider\":\"github-copilot\",\"session_id\":\"s-1\",\"assistant_event\":{\"content\":\" hi \"},\"captured_tool_calls\":[]}"
    );
    let metrics = response.metrics.unwrap();
    assert_eq!(metrics.tool_call_count, 0);
    assert_eq!(metrics.finish_reason.as_deref(), Some("stop"));
}

#[test]
fn an_answer_with_calls_lists_them() {
    let calls = vec![
        call("1", "run", object(vec![("cmd", text("ls")), ("all", Json::Bool(true))])),
        call("2", "stop", Json::Null),
    ];
    let event = object(vec![("content", text("Let me look."))]);
    let response = provider_response("s", Some(event), &calls);
    assert_eq!(
        response.content.to_text(),
        "{\"text\":\"Let me look.\",\"tool_calls\":[{\"id\":\"1\",\"type\":\"function\",\"function\":{\"name\":\"run\",\"arguments\":\"{\\\"cmd\\\":\\\"ls\\\",\\\"all\\\":true}\"}},{\"id\":\"2\",\"type\":\"function\",\"function\":{\"name\":\"stop\",\"arguments\":\"null\"}}]}"
    );
    assert_eq!(
        response.raw.get("captured_tool_calls").unwrap().to_text(),
        "[{\"id\":\"1\",\"name\":\"run\",\"arguments\":{\"cmd\":\"ls\",\"all\":true}},{\"id\":\"2\",\"name\":\"stop\",\"arguments\":null}]"
    );
    let metrics = response.metrics.unwrap();
    assert_eq!(metrics.tool_call_count, 2);
    assert_eq!(metrics.finish_reason.as_deref(), Some("tool_calls"));
}

#[test]
fn blank_text_is_left_out_beside_calls() {
    let calls = vec![call("1", "t", object(vec![]))];
    let (content, reason) = response_content(" \n", &calls);
    assert!(content.get("text").is_none());
    assert_eq!(
        content.to_text(),
        "{\"tool_calls\":[{\"id\":\"1\",\"type\":\"function\",\"function\":{\"name\":\"t\",\"arguments\":\"{}\"}}]}"
    );
    assert_eq!(reason, "tool_calls");
    let (content, reason) = response_content(" \n", &vec![]);
    assert_eq!(content.as_str(), Some(" \n"));
    assert_eq!(reason, "stop");
}

#[test]
fn an_event_without_text_answers_nothing() {
    for event in [None, Some(object(vec![])), Some(object(vec![("content", Json::Bool(true))]))] {
        let response = provider_response("s", event, &vec![]);
        assert_eq!(response.content.as_str(), Some(""));
    }
    let raw = raw_response("s", None, &vec![]);
    assert_eq!(
        raw.to_text(),
        "{\"provider\":\"github-copilot\",\"session_id\":\"s\",\"assistant_event\":null,\"captured_tool_calls\":[]}"
    );
}

#[test]
fn arguments_that_were_not_written_are_empty() {
    let beneath = serde_json::from_str::<serde_json::Value>("[").unwrap_err();
    assert_eq!(arguments_or_empty(Err(beneath)), "{}");
    assert_eq!(arguments_or_empty(Ok("[1]".to_string())), "[1]");
}
