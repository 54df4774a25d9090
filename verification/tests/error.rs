use copilot_provider::error::{provider_error, sdk_error, TuraError};
use github_copilot_sdk::{Error, ErrorKind};

fn parts(error: TuraError) -> (String, String) {
    match error {
        TuraError::ProviderRequest { provider, message } => (provider, message),
        other => panic!("{other:?}"),
    }
}

#[test]
fn sdk_failures_say_what_was_being_done() {
    let error = Error::with_message(ErrorKind::InvalidConfig, "no such mode");
    let (provider, message) = parts(sdk_error("start Copilot SDK client", error));
    assert_eq!(provider, "github-copilot");
    assert_eq!(message, "start Copilot SDK client: no such mode");
}

#[test]
fn sdk_failures_show_what_lies_beneath() {
    let beneath = std::io::Error::new(std::io::ErrorKind::Other, "pipe is gone");
    let (_, message) = parts(sdk_error("send Copilot SDK prompt", Error::from(beneath)));
    assert_eq!(message, "send Copilot SDK prompt: pipe is gone");
}

#[test]
fn failures_told_by_their_text() {
    let (provider, message) = parts(provider_error("a", "b: c"));
    assert_eq!(provider, "github-copilot");
    assert_eq!(message, "a: b: c");
}

#[test]
fn json_failures_are_kept() {
    let beneath = serde_json::from_str::<serde_json::Value>("{").unwrap_err();
    let shown = beneath.to_string();
    match TuraError::from(beneath) {
        TuraError::Json(error) => assert_eq!(error.to_string(), shown),
        other => panic!("{other:?}"),
    }
}
