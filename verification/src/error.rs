//! What can go wrong in a call to the provider.

use vstd::prelude::*;

use crate::PROVIDER_ID;

verus! {

/// `github_copilot_sdk::Error`, an error of the Copilot SDK.
#[verifier::external_type_specification]
#[verifier::external_body]
pub struct ExSdkError(github_copilot_sdk::Error);

/// The message that an SDK error was made from, where it was made from a message and does not
/// report a JSON-RPC error: such an error is shown by its message alone.
pub uninterp spec fn sdk_message(error: github_copilot_sdk::Error) -> Option<Seq<char>>;

/// `Display` of `github_copilot_sdk::Error`, through `to_string`. An error that was made from a
/// message is shown by it. Of every other error nothing is said: its text can come from the
/// operating system or from the other end of the connection.
#[verifier::external_body]
pub(crate) fn sdk_error_text(error: &github_copilot_sdk::Error) -> (r: String)
    ensures
        sdk_message(*error) is Some ==> r@ == sdk_message(*error)->0,
{
    error.to_string()
}

/// An error of the provider.
#[derive(Debug)]
pub enum TuraError {
    /// The request itself is at fault.
    Validation { message: String },
    /// A provider could not serve the request.
    ProviderRequest { provider: String, message: String },
    /// A value could not be written as JSON.
    Json(serde_json::Error),
}

/// The model of an error.
pub enum TuraErrorView {
    Validation { message: Seq<char> },
    ProviderRequest { provider: Seq<char>, message: Seq<char> },
    Json(serde_json::Error),
}

impl View for TuraError {
    type V = TuraErrorView;

    open spec fn view(&self) -> TuraErrorView {
        match self {
            TuraError::Validation { message } => TuraErrorView::Validation { message: message@ },
            TuraError::ProviderRequest { provider, message } => TuraErrorView::ProviderRequest {
                provider: provider@,
                message: message@,
            },
            TuraError::Json(error) => TuraErrorView::Json(*error),
        }
    }
}

impl From<serde_json::Error> for TuraError {
    fn from(error: serde_json::Error) -> (r: TuraError) {
        TuraError::Json(error)
    }
}

impl vstd::std_specs::convert::FromSpecImpl<serde_json::Error> for TuraError {
    open spec fn obeys_from_spec() -> bool {
        true
    }

    open spec fn from_spec(error: serde_json::Error) -> TuraError {
        TuraError::Json(error)
    }
}

/// The error that a failure of the SDK becomes: what was being done, then what the SDK says.
pub open spec fn provider_failure(context: Seq<char>, text: Seq<char>) -> TuraErrorView {
    TuraErrorView::ProviderRequest { provider: PROVIDER_ID@, message: context + ": "@ + text }
}

/// The error that a failure of the SDK becomes, from the text that shows it.
pub fn provider_error(context: &str, text: &str) -> (r: TuraError)
    ensures
        r@ == provider_failure(context@, text@),
{
    let mut message = context.to_owned();
    message.append(": ");
    message.append(text);
    TuraError::ProviderRequest { provider: PROVIDER_ID.to_owned(), message }
}

/// The error that a failure of the SDK becomes.
pub fn sdk_error(context: &str, error: github_copilot_sdk::Error) -> (r: TuraError)
    ensures
        exists|text: Seq<char>| r@ == #[trigger] provider_failure(context@, text),
        sdk_message(error) is Some ==> r@ == provider_failure(context@, sdk_message(error)->0),
{
    let text = sdk_error_text(&error);
    provider_error(context, text.as_str())
}

/// A failure of the SDK is reported under the provider's name, with what was being done, a colon,
/// and what the SDK says, unchanged.
pub proof fn failure_says_what_was_done_and_why(context: Seq<char>, text: Seq<char>)
    ensures
        ({
            let failure = provider_failure(context, text);
            &&& failure is ProviderRequest
            &&& failure->provider == "github-copilot"@
            &&& failure->ProviderRequest_message.len() == context.len() + 2 + text.len()
            &&& failure->ProviderRequest_message.take(context.len() as int) == context
            &&& failure->ProviderRequest_message.skip(context.len() as int).take(2) == ": "@
            &&& failure->ProviderRequest_message.skip(context.len() as int + 2) == text
        }),
{
    reveal_strlit(": ");
    let message = provider_failure(context, text)->ProviderRequest_message;
    assert(message.take(context.len() as int) =~= context);
    assert(message.skip(context.len() as int).take(2) =~= ": "@);
    assert(message.skip(context.len() as int + 2) =~= text);
}

/// The model of an error tells which error it is and what it says.
pub proof fn error_has_its_model(error: TuraError)
    ensures
        error is Validation ==> error@ == (TuraErrorView::Validation {
            message: error->Validation_message@,
        }),
        error is ProviderRequest ==> error@ == (TuraErrorView::ProviderRequest {
            provider: error->provider@,
            message: error->ProviderRequest_message@,
        }),
        error is Json ==> error@ == TuraErrorView::Json(error->Json_0),
{
}

} // verus!
