use copilot_provider::call::{begin, step, CallAction, CallEvent, CallState};
use copilot_provider::error::TuraError;
use copilot_provider::json::{Json, JsonObject};
use copilot_provider::prompt::TRANSCRIPT_HEADING;
use copilot_provider::session::{CallOptions, CallRequest};
use copilot_provider::tools::CapturedToolCall;
use github_copilot_sdk::{Error, ErrorKind};
use serde_json::Value;

fn text(s: &str) -> Json {
    Json::String(s.to_string())
}

fn object(entries: Vec<(&str, Json)>) -> Json {
    let mut object = JsonObject::new();
    for (key, value) in entries {
        object = object.with(key, value);
    }
    Json::Object(object)
}

fn request(tools: Vec<&str>, has_stream_sink: bool) -> CallRequest {
    CallRequest {
        model: "auto".to_string(),
        access_token: "token".to_string(),
        messages: Vec::new(),
        options: CallOptions {
            tools: Some(tools.into_iter().map(|t| object(vec![("name", text(t))])).collect()),
            reasoning_effort: None,
            stream: None,
        },
        has_stream_sink,
        total_timeout_ms: 0,
    }
}

fn shown(action: CallAction) -> String {
    match action {
        CallAction::StartClient(plan) => format!("start {:?}", plan.github_token),
        CallAction::CreateSession(plan) => {
            format!("create {:?}", plan.offer.map(|offer| offer.available))
        }
        CallAction::Send { prompt, timeout_ms, forward_events } => {
            assert_eq!(prompt, format!("{TRANSCRIPT_HEADING}[]"));
            format!("send {timeout_ms} {forward_events}")
        }
        CallAction::AwaitStream => "await".to_string(),
        CallAction::Disconnect => "disconnect".to_string(),
        CallAction::StopClient => "stop".to_string(),
        CallAction::Return(Ok(response)) => format!("ok {}", response.content.to_text()),
        CallAction::Return(Err(TuraError::ProviderRequest { provider, message })) => {
            format!("{provider} {message}")
        }
        CallAction::Return(Err(TuraError::Validation { message })) => message,
        CallAction::Return(Err(TuraError::Json(error))) => format!("{error}"),
        CallAction::Ignore => "ignore".to_string(),
    }
}

fn run(request: &CallRequest, events: Vec<CallEvent>) -> Vec<String> {
    let (mut state, action) = begin(request);
    let mut actions = vec![shown(action)];
    for event in events {
        let (next, action) = step(request, state, event);
        state = next;
        actions.push(shown(action));
    }
    actions
}

fn replied(s: &str) -> CallEvent {
    CallEvent::Replied(Ok(Some(object(vec![("content", text(s))]))))
}

fn session() -> CallEvent {
    CallEvent::SessionCreated(Ok("s-1".to_string()))
}

#[test]
fn a_call_from_beginning_to_end() {
    let actions = run(
        &request(vec!["t"], false),
        vec![
            CallEvent::ClientStarted(Ok(())),
            session(),
            replied("hi"),
            CallEvent::Disconnected,
            CallEvent::ClientStopped(vec![]),
        ],
    );
    assert_eq!(
        actions,
        vec![
            "start Some(\"token\")",
            "create Some([\"custom:t\"])",
            "send 1 false",
            "disconnect",
            "stop",
            "ok \"hi\"",
        ]
    );
}

#[test]
fn a_call_that_streams_and_captures() {
    let call = CapturedToolCall {
        id: "1".to_string(),
        name: "t".to_string(),
        arguments: Json::Array(vec![]),
    };
    let actions = run(
        &request(vec![], true),
        vec![
            CallEvent::ClientStarted(Ok(())),
            session(),
            CallEvent::Replied(Ok(None)),
            CallEvent::StreamDrained,
            CallEvent::Disconnected,
            CallEvent::ClientStopped(vec![call]),
        ],
    );
    assert_eq!(
        actions[1..],
        [
            "create None",
            "send 1 true",
            "await",
            "disconnect",
            "stop",
            "ok {\"tool_calls\":[{\"id\":\"1\",\"type\":\"function\",\"function\":{\"name\":\"t\",\"arguments\":\"[]\"}}]}",
        ]
    );
}

#[test]
fn a_prompt_that_failed_still_closes_the_session() {
    let actions = run(
        &request(vec![], false),
        vec![
            CallEvent::ClientStarted(Ok(())),
            session(),
            CallEvent::Replied(Err("timed out".to_string())),
            CallEvent::Disconnected,
            CallEvent::ClientStopped(vec![]),
        ],
    );
    assert_eq!(
        actions[3..],
        ["disconnect", "stop", "github-copilot send Copilot SDK prompt: timed out"]
    );
}

#[test]
fn a_session_that_failed_stops_the_client() {
    let actions = run(
        &request(vec![], false),
        vec![
            CallEvent::ClientStarted(Ok(())),
            CallEvent::SessionCreated(Err("refused".to_string())),
            CallEvent::ClientStopped(vec![]),
        ],
    );
    assert_eq!(
        actions[1..],
        ["create None", "stop", "github-copilot create Copilot SDK session: refused"]
    );
}

#[test]
fn a_client_that_failed_ends_the_call() {
    let actions = run(
        &request(vec!["not a name"], false),
        vec![CallEvent::ClientStarted(Err("no program".to_string())), session()],
    );
    assert_eq!(
        actions[1..],
        ["github-copilot start Copilot SDK client: no program", "ignore"]
    );
}

#[test]
fn tools_at_fault_end_the_call() {
    let actions = run(
        &request(vec!["fine", "not a name"], false),
        vec![CallEvent::ClientStarted(Ok(())), session()],
    );
    assert_eq!(
        actions[1..],
        [
            "github-copilot register Copilot SDK tool: Invalid custom tool name 'not a name': tool names must match /^[a-zA-Z0-9_-]+$/ or be the wildcard '*'.",
            "ignore",
        ]
    );
}

#[test]
fn events_out_of_turn_are_ignored() {
    let request = request(vec![], false);
    let (state, _) = begin(&request);
    let (state, action) = step(&request, state, CallEvent::Disconnected);
    assert!(matches!(state, CallState::Starting));
    assert!(matches!(action, CallAction::Ignore));
    let (state, _) = step(&request, state, CallEvent::ClientStarted(Ok(())));
    let (state, action) = step(&request, state, CallEvent::ClientStarted(Ok(())));
    assert!(matches!(state, CallState::Opening));
    assert!(matches!(action, CallAction::Ignore));
    let (state, action) = step(&request, state, replied("early"));
    assert!(matches!(state, CallState::Opening));
    assert!(matches!(action, CallAction::Ignore));
}

#[test]
fn failures_of_the_sdk_are_told_by_their_text() {
    let error = || Error::with_message(ErrorKind::InvalidConfig, "no luck");
    assert_eq!(
        run(&request(vec![], false), vec![CallEvent::start_failed(error())])[1..],
        ["github-copilot start Copilot SDK client: no luck"]
    );
    assert_eq!(
        run(
            &request(vec![], false),
            vec![
                CallEvent::ClientStarted(Ok(())),
                CallEvent::creation_failed(error()),
                CallEvent::ClientStopped(vec![]),
            ]
        )[3],
        "github-copilot create Copilot SDK session: no luck"
    );
    assert_eq!(
        run(
            &request(vec![], false),
            vec![
                CallEvent::ClientStarted(Ok(())),
                session(),
                CallEvent::replied(Err(error())),
                CallEvent::Disconnected,
                CallEvent::ClientStopped(vec![]),
            ]
        )[5],
        "github-copilot send Copilot SDK prompt: no luck"
    );
}

#[test]
fn replies_of_the_sdk_are_read() {
    let data: Value = serde_json::from_str("{\"content\":\"hi\"}").unwrap();
    match CallEvent::replied(Ok(Some(data))) {
        CallEvent::Replied(Ok(Some(event))) => assert_eq!(event.get_str("content"), Some("hi")),
        _ => panic!(),
    }
    assert!(matches!(CallEvent::replied(Ok(None)), CallEvent::Replied(Ok(None))));
}
