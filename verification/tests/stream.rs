use copilot_provider::json::{Json, JsonObject};
use copilot_provider::stream::{Forwarding, ProviderStreamEvent, StreamForwarder};

fn text(s: &str) -> Json {
    Json::String(s.to_string())
}

fn object(entries: Vec<(&str, Json)>) -> Json {
    let mut object = JsonObject::new();
    for (key, value) in entries {
        object = object.with(key, value);
    }
    Json::Object(object)
}

fn told(events: Vec<(&str, Json)>) -> (Vec<String>, bool) {
    let mut forwarder = StreamForwarder::new();
    let mut told = Vec::new();
    for (event_type, data) in events {
        match forwarder.forward(event_type, &data) {
            Forwarding::Tell(events) => {
                for event in events {
                    told.push(match event {
                        ProviderStreamEvent::ProviderOutputStarted => "started".to_string(),
                        ProviderStreamEvent::TextDelta { text } => format!("+{text}"),
                    });
                }
            }
            Forwarding::Stop => return (told, true),
        }
    }
    (told, false)
}

const DELTA: &str = "assistant.message_delta";

#[test]
fn the_answer_is_forwarded_as_it_grows() {
    let (told, stopped) = told(vec![
        ("session.start", object(vec![("delta", text("no"))])),
        (DELTA, object(vec![("delta", text(""))])),
        (DELTA, object(vec![("delta", text("Hel"))])),
        ("assistant.message", object(vec![("content", text("Hello"))])),
        (DELTA, object(vec![("content", text("lo"))])),
        ("session.idle", object(vec![])),
        (DELTA, object(vec![("delta", text("late"))])),
    ]);
    assert_eq!(told, vec!["started", "+Hel", "+lo"]);
    assert!(stopped);
}

#[test]
fn a_delta_hides_the_content() {
    let (told, stopped) = told(vec![
        (DELTA, object(vec![("delta", Json::Null), ("content", text("hidden"))])),
        (DELTA, object(vec![("delta", text("a")), ("content", text("b"))])),
        (DELTA, text("c")),
    ]);
    assert_eq!(told, vec!["started", "+a"]);
    assert!(!stopped);
}

#[test]
fn a_session_that_fails_ends_the_stream() {
    let (told, stopped) = told(vec![("session.error", object(vec![("delta", text("x"))]))]);
    assert!(told.is_empty());
    assert!(stopped);
}

#[test]
fn a_silent_model_has_not_begun() {
    let mut forwarder = StreamForwarder::new();
    assert!(!forwarder.started);
    forwarder.forward(DELTA, &object(vec![]));
    assert!(!forwarder.started);
    forwarder.forward(DELTA, &object(vec![("delta", text(" "))]));
    assert!(forwarder.started);
}
