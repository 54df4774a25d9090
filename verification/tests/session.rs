use copilot_provider::json::{Json, JsonObject};
use copilot_provider::prompt::{BOUNDARY, NO_TOOLS};
use copilot_provider::session::{
    client_plan, is_automatic_model, session_plan, wait_timeout_ms, CallOptions, CallRequest,
    ToolOffer,
};
use copilot_provider::tools::sdk_tools;

fn request() -> CallRequest {
    CallRequest {
        model: "gpt-5".to_string(),
        access_token: String::new(),
        messages: Vec::new(),
        options: CallOptions { tools: None, reasoning_effort: None, stream: None },
        has_stream_sink: false,
        total_timeout_ms: 0,
    }
}

fn nothing() -> ToolOffer {
    ToolOffer { tools: Vec::new(), available: Vec::new() }
}

#[test]
fn a_blank_token_leaves_the_login_to_the_sdk() {
    for token in ["", "  ", "\u{a0}\n"] {
        let plan = client_plan(token);
        assert!(plan.empty_mode);
        assert!(plan.use_logged_in_user);
        assert_eq!(plan.env_remove, vec!["COPILOT_GITHUB_TOKEN"]);
        assert_eq!(plan.github_token, None);
    }
}

#[test]
fn a_token_is_handed_on_as_it_is() {
    let plan = client_plan(" t ");
    assert!(plan.empty_mode);
    assert!(!plan.use_logged_in_user);
    assert!(plan.env_remove.is_empty());
    assert_eq!(plan.github_token.as_deref(), Some(" t "));
}

#[test]
fn some_names_leave_the_choice_of_the_model() {
    for name in ["auto", "default", "copilot", " AUTO\n", "CoPilot", "Default "] {
        assert!(is_automatic_model(name), "{name}");
        let plan = session_plan(&CallRequest { model: name.to_string(), ..request() }, nothing());
        assert_eq!(plan.model, None);
    }
    for name in ["", "automatic", "a uto", "gpt-5", " gpt-5 ", "\u{212a}opilot"] {
        assert!(!is_automatic_model(name), "{name}");
        let plan = session_plan(&CallRequest { model: name.to_string(), ..request() }, nothing());
        assert_eq!(plan.model.as_deref(), Some(name));
    }
}

#[test]
fn a_session_is_isolated() {
    let plan = session_plan(&request(), nothing());
    assert_eq!(plan.client_name, "tura");
    assert!(plan.deny_all_permissions);
    assert!(!plan.enable_config_discovery);
    assert!(!plan.enable_host_git_operations);
    assert!(!plan.enable_skills);
    assert!(!plan.enable_session_store);
    assert!(plan.skip_embedding_retrieval);
    assert_eq!(plan.system_message_mode, "customize");
    assert_eq!(plan.system_message, format!("{BOUNDARY}\n\n{NO_TOOLS}"));
    assert!(plan.offer.is_none());
}

#[test]
fn a_session_offers_the_declared_tools() {
    let tool = || {
        Json::Object(JsonObject::new().with("name", Json::String("t".to_string())))
    };
    let mut request = request();
    request.options.tools = Some(vec![tool()]);
    let (tools, available) = sdk_tools(request.tools()).unwrap();
    let plan = session_plan(&request, ToolOffer { tools, available });
    assert_eq!(plan.system_message, BOUNDARY);
    let offer = plan.offer.unwrap();
    assert_eq!(offer.tools.len(), 1);
    assert_eq!(offer.tools[0].name, "t");
    assert_eq!(offer.available, vec!["custom:t"]);
}

#[test]
fn a_session_streams_where_someone_listens_or_asks() {
    for (sink, stream, expected) in [
        (false, None, false),
        (false, Some(false), false),
        (false, Some(true), true),
        (true, None, true),
        (true, Some(false), true),
    ] {
        let mut request = request();
        request.has_stream_sink = sink;
        request.options.stream = stream;
        assert_eq!(session_plan(&request, nothing()).streaming, expected);
    }
}

#[test]
fn a_blank_effort_is_none() {
    for (effort, expected) in [
        (None, None),
        (Some(""), None),
        (Some(" \t"), None),
        (Some(" high "), Some(" high ")),
    ] {
        let mut request = request();
        request.options.reasoning_effort = effort.map(|e: &str| e.to_string());
        assert_eq!(session_plan(&request, nothing()).reasoning_effort.as_deref(), expected);
    }
}

#[test]
fn waiting_takes_a_moment_at_least() {
    assert_eq!(wait_timeout_ms(0), 1);
    assert_eq!(wait_timeout_ms(1), 1);
    assert_eq!(wait_timeout_ms(u64::MAX), u64::MAX);
}
