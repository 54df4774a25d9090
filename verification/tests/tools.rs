use copilot_provider::error::TuraError;
use copilot_provider::json::{Json, JsonObject};
use copilot_provider::tools::{capture, keep_call, sdk_tools, CapturedToolCall, CAPTURE_REPLY};

fn text(s: &str) -> Json {
    Json::String(s.to_string())
}

fn object(entries: Vec<(&str, Json)>) -> Json {
    let mut object = JsonObject::new();
    for (key, value) in entries {
        object = object.with(key, value);
    }
    Json::Object(object)
}

fn named(name: &str) -> Json {
    object(vec![("name", text(name))])
}

#[test]
fn sdk_tools_translate_openai_function_shape() {
    let configured = vec![object(vec![
        ("type", text("function")),
        (
            "function",
            object(vec![
                ("name", text("command_run")),
                ("description", text("Run commands")),
                (
                    "parameters",
                    object(vec![("type", text("object")), ("properties", object(vec![]))]),
                ),
            ]),
        ),
    ])];
    let (tools, available) = sdk_tools(Some(&configured)).expect("tools");

    assert_eq!(tools.len(), 1);
    assert_eq!(tools[0].name, "command_run");
    assert_eq!(available, vec!["custom:command_run"]);
}

#[test]
fn a_tool_is_declared_in_full() {
    let parameters = object(vec![("type", text("object")), ("required", Json::Array(vec![]))]);
    let configured = vec![object(vec![
        ("description", text("Looks up")),
        ("name", text("look-up_2")),
        ("parameters", parameters),
    ])];
    let (tools, available) = sdk_tools(Some(&configured)).unwrap();
    assert_eq!(tools[0].name, "look-up_2");
    assert_eq!(tools[0].description, "Looks up");
    assert_eq!(tools[0].parameters.to_text(), "{\"type\":\"object\",\"required\":[]}");
    assert!(tools[0].skip_permission);
    assert_eq!(available, vec!["custom:look-up_2"]);
}

#[test]
fn what_a_tool_leaves_out_is_filled_in() {
    let (tools, _) = sdk_tools(Some(&[named("t")])).unwrap();
    assert_eq!(tools[0].description, "");
    assert_eq!(tools[0].parameters.to_text(), "{\"type\":\"object\",\"properties\":{}}");

    let odd = object(vec![("name", text("t")), ("description", Json::Bool(true))]);
    let (tools, _) = sdk_tools(Some(&[odd])).unwrap();
    assert_eq!(tools[0].description, "");
}

#[test]
fn nameless_tools_are_passed_over() {
    let configured = vec![
        named(""),
        named(" \t"),
        object(vec![("name", Json::Null)]),
        Json::Null,
        object(vec![("name", text("outer")), ("function", object(vec![]))]),
        named("kept"),
        named("kept"),
        named("*"),
    ];
    let (tools, available) = sdk_tools(Some(&configured)).unwrap();
    assert_eq!(tools.len(), 3);
    assert_eq!(available, vec!["custom:kept", "custom:kept", "custom:*"]);
}

#[test]
fn no_tools_make_no_declarations() {
    for configured in [None, Some(&[] as &[Json])] {
        let (tools, available) = sdk_tools(configured).unwrap();
        assert!(tools.is_empty());
        assert!(available.is_empty());
    }
}

#[test]
fn parameters_have_to_be_an_object() {
    for parameters in [Json::Null, text("{}"), Json::Array(vec![])] {
        let tool = object(vec![("name", text("bad name")), ("parameters", parameters)]);
        match sdk_tools(Some(&[named("fine"), tool])) {
            Err(TuraError::Validation { message }) => assert_eq!(
                message,
                "GitHub Copilot tool 'bad name' parameters must be a JSON object"
            ),
            other => panic!("{other:?}"),
        }
    }
}

#[test]
fn names_have_to_suit_the_sdk() {
    for name in ["bad name", " padded", "caf\u{e9}", "a.b", "**"] {
        match sdk_tools(Some(&[named("fine"), named(name), named("also bad")])) {
            Err(TuraError::ProviderRequest { provider, message }) => {
                assert_eq!(provider, "github-copilot");
                assert_eq!(
                    message,
                    format!(
                        "register Copilot SDK tool: Invalid custom tool name '{name}': tool names must match /^[a-zA-Z0-9_-]+$/ or be the wildcard '*'."
                    )
                );
            }
            other => panic!("{other:?}"),
        }
    }
}

#[test]
fn bare_and_wrapped_tools_are_declared_alike() {
    let bare = || object(vec![("name", text("t")), ("description", text("d"))]);
    let wrapped = object(vec![("function", bare()), ("name", text("u"))]);
    let (tools, available) = sdk_tools(Some(&[bare(), wrapped])).unwrap();
    assert_eq!(tools[0].name, tools[1].name);
    assert_eq!(tools[0].description, tools[1].description);
    assert_eq!(tools[0].parameters.to_text(), tools[1].parameters.to_text());
    assert_eq!(available, vec!["custom:t", "custom:t"]);
}

#[test]
fn captured_calls_get_identifiers_of_their_own() {
    let mut captured: Vec<CapturedToolCall> = Vec::new();
    let reply = capture(&mut captured, "t", text("x"));
    capture(&mut captured, "u", Json::Null);
    assert_eq!(
        reply,
        "The host application captured this tool request. Stop this turn and wait for the host to execute it."
    );
    assert_eq!(captured.len(), 2);
    assert_eq!(captured[0].name, "t");
    assert_eq!(captured[0].arguments.as_str(), Some("x"));
    assert_eq!(captured[1].name, "u");
    assert_ne!(captured[0].id, captured[1].id);
    for call in &captured {
        assert_eq!(call.id.len(), 32);
        assert!(call.id.chars().all(|c| matches!(c, '0'..='9' | 'a'..='f')));
        assert_eq!(&call.id[12..13], "4");
        assert!("89ab".contains(&call.id[16..17]));
    }
}

#[test]
fn calls_are_kept_in_order() {
    let mut captured: Vec<CapturedToolCall> = Vec::new();
    assert_eq!(keep_call(&mut captured, "1".to_string(), "a", Json::Null), CAPTURE_REPLY);
    keep_call(&mut captured, "2".to_string(), "b", Json::Bool(true));
    let seen: Vec<_> = captured.iter().map(|c| (c.id.as_str(), c.name.as_str())).collect();
    assert_eq!(seen, vec![("1", "a"), ("2", "b")]);
}
