use copilot_provider::error::TuraError;
use copilot_provider::json::{Json, JsonObject};
use copilot_provider::prompt::{
    canonical_prompt, prompt_around, system_message, value_text, BOUNDARY, NO_TOOLS,
    TRANSCRIPT_HEADING,
};
use serde_json::Number;

fn text(s: &str) -> Json {
    Json::String(s.to_string())
}

fn object(entries: Vec<(&str, Json)>) -> Json {
    let mut object = JsonObject::new();
    for (key, value) in entries {
        object = object.with(key, value);
    }
    Json::Object(object)
}

fn message(role: &str, content: &str) -> Json {
    object(vec![("role", text(role)), ("content", text(content))])
}

#[test]
fn canonical_prompt_excludes_system_messages_but_preserves_tool_results() {
    let prompt = canonical_prompt(&[
        object(vec![("role", text("system")), ("content", text("private system"))]),
        object(vec![("role", text("user")), ("content", text("hello"))]),
        object(vec![
            ("role", text("tool")),
            ("tool_call_id", text("call-1")),
            ("content", text("done")),
        ]),
    ])
    .expect("prompt");

    assert!(!prompt.contains("private system"));
    assert!(prompt.contains("hello"));
    assert!(prompt.contains("tool_call_id"));
}

#[test]
fn system_message_keeps_tura_as_the_runtime_boundary() {
    let message = system_message(
        &[object(vec![("role", text("system")), ("content", text("Be precise"))])],
        Some(&[object(vec![
            ("type", text("function")),
            ("function", object(vec![("name", text("command_run"))])),
        ])]),
    );

    assert!(message.contains("Be precise"));
    assert!(message.contains("Tura owns orchestration"));
    assert!(message.contains("Only call custom tools"));
}

#[test]
fn prompt_is_the_heading_and_the_transcript() {
    let prompt = canonical_prompt(&[message("developer", "x"), message("user", "hello")]).unwrap();
    assert_eq!(
        prompt,
        "Continue the canonical conversation below as the assistant. Preserve the meaning of prior assistant tool calls and tool results. Do not quote or explain the JSON transcript.\n\n[\n  {\n    \"role\": \"user\",\n    \"content\": \"hello\"\n  }\n]"
    );
    assert_eq!(canonical_prompt(&[]).unwrap(), format!("{TRANSCRIPT_HEADING}[]"));
}

#[test]
fn prompt_does_not_change_with_an_instruction() {
    let with = canonical_prompt(&[message("user", "a"), message("system", "s"), message("user", "b")]);
    let without = canonical_prompt(&[message("user", "a"), message("user", "b")]);
    assert_eq!(with.unwrap(), without.unwrap());
}

#[test]
fn only_texts_name_a_role() {
    let messages = [object(vec![("role", Json::Array(vec![text("system")]))]), text("system")];
    let prompt = canonical_prompt(&messages).unwrap();
    assert_eq!(
        prompt,
        format!("{TRANSCRIPT_HEADING}[\n  {{\n    \"role\": [\n      \"system\"\n    ]\n  }},\n  \"system\"\n]")
    );
    let told = system_message(&[message("System", "loud")], None);
    assert_eq!(told, format!("{BOUNDARY}\n\n{NO_TOOLS}"));
}

#[test]
fn a_transcript_that_failed_is_an_error() {
    let beneath = serde_json::from_str::<serde_json::Value>("{").unwrap_err();
    assert!(matches!(prompt_around(Err(beneath)), Err(TuraError::Json(_))));
    assert_eq!(prompt_around(Ok("T".to_string())).unwrap(), format!("{TRANSCRIPT_HEADING}T"));
}

#[test]
fn system_message_in_full() {
    let messages = [
        message("system", "one"),
        message("user", "not this"),
        message("developer", "two"),
        message("system", " \n"),
        object(vec![("role", text("system"))]),
    ];
    assert_eq!(
        system_message(&messages, None),
        "one\n\ntwo\n\nYou are the model provider inside Tura. Tura owns orchestration, permissions, filesystem access, command execution, and tool execution. Do not use ambient Copilot CLI tools, config discovery, skills, agents, MCP servers, host Git operations, or host filesystem access. Only call custom tools explicitly supplied by Tura. When you call one or more supplied tools, stop the turn after the host-capture result and do not continue with a synthesized answer.\n\nNo tools are available in this turn; answer with text only."
    );
    assert_eq!(
        system_message(&messages, Some(&[Json::Null])),
        format!("one\n\ntwo\n\n{BOUNDARY}")
    );
    assert_eq!(system_message(&[], Some(&[])), format!("{BOUNDARY}\n\n{NO_TOOLS}"));
}

#[test]
fn values_as_text() {
    assert_eq!(value_text(&text("plain")), "plain");
    assert_eq!(value_text(&Json::Null), "null");
    assert_eq!(value_text(&Json::Bool(true)), "true");
    assert_eq!(value_text(&Json::Number(Number::from(12))), "12");
    assert_eq!(value_text(&object(vec![("text", text("t"))])), "{\"text\":\"t\"}");
    assert_eq!(value_text(&Json::Array(vec![])), "");
    assert_eq!(
        value_text(&Json::Array(vec![
            object(vec![("type", text("text")), ("text", text("first"))]),
            text("second"),
            Json::Number(Number::from(3)),
            object(vec![("text", Json::Bool(true))]),
            text(""),
            text("last"),
        ])),
        "first\nsecond\n\nlast"
    );
}
