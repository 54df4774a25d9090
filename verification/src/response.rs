//! What a call gives back to the host.

use vstd::prelude::*;

use crate::encode;
use crate::json;
use crate::json::{Json, JsonObject, JsonView};
use crate::text;
use crate::text::is_blank;
use crate::tools;
use crate::tools::{CallView, CapturedToolCall};
use crate::PROVIDER_ID;

verus! {

/// The answer of the provider.
#[derive(Debug)]
pub struct ProviderResponse {
    /// What the model answered.
    pub content: Json,
    /// What the answer was made from.
    pub raw: Json,
    pub metrics: Option<CallMetrics>,
}

/// What is counted of a call.
#[derive(Debug)]
pub struct CallMetrics {
    pub tool_call_count: usize,
    pub finish_reason: Option<String>,
}

/// The model of [`ProviderResponse`].
pub struct ResponseView {
    pub content: JsonView,
    pub raw: JsonView,
    pub metrics: Option<MetricsView>,
}

/// The model of [`CallMetrics`].
pub struct MetricsView {
    pub tool_call_count: nat,
    pub finish_reason: Option<Seq<char>>,
}

impl View for CallMetrics {
    type V = MetricsView;

    open spec fn view(&self) -> MetricsView {
        MetricsView {
            tool_call_count: self.tool_call_count as nat,
            finish_reason: text::optional_text(self.finish_reason),
        }
    }
}

impl View for ProviderResponse {
    type V = ResponseView;

    open spec fn view(&self) -> ResponseView {
        ResponseView {
            content: self.content@,
            raw: self.raw@,
            metrics: match self.metrics {
                Some(metrics) => Some(metrics@),
                None => None,
            },
        }
    }
}

/// The text of the assistant's event: what it holds as its `content`, where that is a text.
pub open spec fn assistant_text(event: Option<JsonView>) -> Seq<char> {
    match event {
        Some(data) => match data.field_text("content"@) {
            Some(t) => t,
            None => Seq::empty(),
        },
        None => Seq::empty(),
    }
}

/// A call of a tool, as the host reads it.
pub open spec fn tool_call_json(call: CallView) -> JsonView {
    JsonView::Object(
        seq![
            ("id"@, JsonView::String(call.id)),
            ("type"@, JsonView::String("function"@)),
            (
                "function"@,
                JsonView::Object(
                    seq![
                        ("name"@, JsonView::String(call.name)),
                        ("arguments"@, JsonView::String(encode::compact_text(call.arguments))),
                    ],
                ),
            ),
        ],
    )
}

/// The calls of tools, as the host reads them.
pub open spec fn tool_calls_json(calls: Seq<CallView>) -> JsonView {
    JsonView::Array(calls.map_values(|call: CallView| tool_call_json(call)))
}

/// What the model answered: its text, or its calls of tools, with its text where that is not
/// blank.
pub open spec fn content_json(assistant: Seq<char>, calls: Seq<CallView>) -> JsonView {
    if calls.len() == 0 {
        JsonView::String(assistant)
    } else if text::blank(assistant) {
        JsonView::Object(seq![("tool_calls"@, tool_calls_json(calls))])
    } else {
        JsonView::Object(
            seq![
                ("text"@, JsonView::String(assistant)),
                ("tool_calls"@, tool_calls_json(calls)),
            ],
        )
    }
}

/// Why the model stopped.
pub open spec fn finish_reason(calls: Seq<CallView>) -> Seq<char> {
    if calls.len() == 0 {
        "stop"@
    } else {
        "tool_calls"@
    }
}

/// A call of a tool, as it was captured.
pub open spec fn captured_json(call: CallView) -> JsonView {
    JsonView::Object(
        seq![
            ("id"@, JsonView::String(call.id)),
            ("name"@, JsonView::String(call.name)),
            ("arguments"@, call.arguments),
        ],
    )
}

/// What the answer was made from.
pub open spec fn raw_json(
    session_id: Seq<char>,
    event: Option<JsonView>,
    calls: Seq<CallView>,
) -> JsonView {
    JsonView::Object(
        seq![
            ("provider"@, JsonView::String(PROVIDER_ID@)),
            ("session_id"@, JsonView::String(session_id)),
            (
                "assistant_event"@,
                match event {
                    Some(data) => data,
                    None => JsonView::Null,
                },
            ),
            (
                "captured_tool_calls"@,
                JsonView::Array(calls.map_values(|call: CallView| captured_json(call))),
            ),
        ],
    )
}

/// The answer of the provider.
pub open spec fn response_view(
    session_id: Seq<char>,
    event: Option<JsonView>,
    calls: Seq<CallView>,
) -> ResponseView {
    ResponseView {
        content: content_json(assistant_text(event), calls),
        raw: raw_json(session_id, event, calls),
        metrics: Some(
            MetricsView {
                tool_call_count: calls.len(),
                finish_reason: Some(finish_reason(calls)),
            },
        ),
    }
}

/// The model of an event that may be missing.
pub open spec fn event_view(event: Option<Json>) -> Option<JsonView> {
    match event {
        Some(data) => Some(data@),
        None => None,
    }
}

/// Puts a value under a key that the object does not have, as the lengths of the keys tell.
fn put(object: JsonObject, key: &str, value: Json) -> (r: JsonObject)
    requires
        forall|i: int| 0 <= i < object@.len() ==> (#[trigger] object@[i]).0.len() != key@.len(),
    ensures
        r@ == object@.push((key@, value@)),
{
    assert(!json::has_key(object@, key@));
    object.with(key, value)
}

proof fn key_lengths()
    ensures
        "id"@.len() == 2,
        "type"@.len() == 4,
        "name"@.len() == 4,
        "text"@.len() == 4,
        "function"@.len() == 8,
        "provider"@.len() == 8,
        "arguments"@.len() == 9,
        "session_id"@.len() == 10,
        "tool_calls"@.len() == 10,
        "assistant_event"@.len() == 15,
        "captured_tool_calls"@.len() == 19,
{
    reveal_strlit("id");
    reveal_strlit("type");
    reveal_strlit("name");
    reveal_strlit("text");
    reveal_strlit("function");
    reveal_strlit("provider");
    reveal_strlit("arguments");
    reveal_strlit("session_id");
    reveal_strlit("tool_calls");
    reveal_strlit("assistant_event");
    reveal_strlit("captured_tool_calls");
}

/// The arguments of a call as text, once they were written; an empty object where that failed.
pub fn arguments_or_empty(written: Result<String, serde_json::Error>) -> (r: String)
    ensures
        match written {
            Ok(t) => r@ == t@,
            Err(_) => r@ == "{}"@,
        },
{
    match written {
        Ok(t) => t,
        Err(_) => "{}".to_owned(),
    }
}

fn tool_call(call: &CapturedToolCall) -> (r: Json)
    ensures
        r@ == tool_call_json(call@),
{
    proof {
        key_lengths();
    }
    let arguments = arguments_or_empty(call.arguments.to_compact_text());
    let function = put(
        put(JsonObject::new(), "name", Json::String(call.name.clone())),
        "arguments",
        Json::String(arguments),
    );
    let object = put(
        put(
            put(JsonObject::new(), "id", Json::String(call.id.clone())),
            "type",
            Json::String("function".to_owned()),
        ),
        "function",
        Json::Object(function),
    );
    proof {
        let inner = tool_call_json(call@)->Object_0[2].1;
        assert(function@ =~= inner->Object_0);
        assert(object@ =~= tool_call_json(call@)->Object_0);
    }
    Json::Object(object)
}

fn captured_call(call: &CapturedToolCall) -> (r: Json)
    ensures
        r@ == captured_json(call@),
{
    proof {
        key_lengths();
    }
    let object = put(
        put(
            put(JsonObject::new(), "id", Json::String(call.id.clone())),
            "name",
            Json::String(call.name.clone()),
        ),
        "arguments",
        call.arguments.clone(),
    );
    assert(object@ =~= captured_json(call@)->Object_0);
    Json::Object(object)
}

fn tool_calls(calls: &Vec<CapturedToolCall>) -> (r: Json)
    ensures
        r@ == tool_calls_json(tools::call_views(calls@)),
{
    let mut items: Vec<Json> = Vec::new();
    let mut i: usize = 0;
    while i < calls.len()
        invariant
            i <= calls.len(),
            items.len() == i,
            forall|j: int| 0 <= j < i ==> (#[trigger] items@[j])@ == tool_call_json(calls@[j]@),
        decreases calls.len() - i,
    {
        items.push(tool_call(&calls[i]));
        i = i + 1;
    }
    proof {
        json::array_view(items);
        assert(json::views(items@) =~= tool_calls_json(tools::call_views(calls@))->Array_0);
    }
    Json::Array(items)
}

fn captured_calls(calls: &Vec<CapturedToolCall>) -> (r: Json)
    ensures
        r@ == JsonView::Array(
            tools::call_views(calls@).map_values(|call: CallView| captured_json(call)),
        ),
{
    let mut items: Vec<Json> = Vec::new();
    let mut i: usize = 0;
    while i < calls.len()
        invariant
            i <= calls.len(),
            items.len() == i,
            forall|j: int| 0 <= j < i ==> (#[trigger] items@[j])@ == captured_json(calls@[j]@),
        decreases calls.len() - i,
    {
        items.push(captured_call(&calls[i]));
        i = i + 1;
    }
    proof {
        json::array_view(items);
        assert(json::views(items@) =~= tools::call_views(calls@).map_values(
            |call: CallView| captured_json(call),
        ));
    }
    Json::Array(items)
}

/// What the model answered, and why it stopped.
pub fn response_content(assistant: &str, calls: &Vec<CapturedToolCall>) -> (r: (
    Json,
    &'static str,
))
    ensures
        r.0@ == content_json(assistant@, tools::call_views(calls@)),
        r.1@ == finish_reason(tools::call_views(calls@)),
{
    if calls.len() == 0 {
        return (Json::String(assistant.to_owned()), "stop");
    }
    proof {
        key_lengths();
    }
    let mut object = JsonObject::new();
    if !is_blank(assistant) {
        object = put(object, "text", Json::String(assistant.to_owned()));
    }
    let object = put(object, "tool_calls", tool_calls(calls));
    assert(object@ =~= content_json(assistant@, tools::call_views(calls@))->Object_0);
    (Json::Object(object), "tool_calls")
}

/// What the answer was made from.
pub fn raw_response(session_id: &str, event: Option<Json>, calls: &Vec<CapturedToolCall>) -> (r:
    Json)
    ensures
        r@ == raw_json(session_id@, event_view(event), tools::call_views(calls@)),
{
    proof {
        key_lengths();
    }
    let data = match event {
        Some(data) => data,
        None => Json::Null,
    };
    let object = put(
        put(
            put(
                put(JsonObject::new(), "provider", Json::String(PROVIDER_ID.to_owned())),
                "session_id",
                Json::String(session_id.to_owned()),
            ),
            "assistant_event",
            data,
        ),
        "captured_tool_calls",
        captured_calls(calls),
    );
    assert(object@ =~= raw_json(
        session_id@,
        event_view(event),
        tools::call_views(calls@),
    )->Object_0);
    Json::Object(object)
}

/// The answer of the provider, from what the session replied and the calls that were captured.
pub fn provider_response(session_id: &str, event: Option<Json>, calls: &Vec<CapturedToolCall>) -> (
    r: ProviderResponse)
    ensures
        r@ == response_view(session_id@, event_view(event), tools::call_views(calls@)),
{
    proof {
        reveal_strlit("");
        assert(""@ =~= Seq::empty());
    }
    let assistant = match &event {
        Some(data) => match data.get_str("content") {
            Some(t) => t.to_owned(),
            None => "".to_owned(),
        },
        None => "".to_owned(),
    };
    let (content, reason) = response_content(assistant.as_str(), calls);
    let raw = raw_response(session_id, event, calls);
    ProviderResponse {
        content,
        raw,
        metrics: Some(
            CallMetrics { tool_call_count: calls.len(), finish_reason: Some(reason.to_owned()) },
        ),
    }
}

/// The host finds every captured call in the answer, in its place, under its identifier and its
/// name, with its arguments written out, and the answer says that the model stopped for it.
pub proof fn answer_reports_every_call(
    session_id: Seq<char>,
    event: Option<JsonView>,
    calls: Seq<CallView>,
    i: int,
)
    requires
        0 <= i < calls.len(),
    ensures
        ({
            let response = response_view(session_id, event, calls);
            let listed = response.content.field("tool_calls"@);
            let call = listed->0->Array_0[i];
            let function = call.field("function"@);
            &&& listed is Some
            &&& listed->0 is Array
            &&& listed->0->Array_0.len() == calls.len()
            &&& call.field_text("id"@) == Some(calls[i].id)
            &&& function is Some
            &&& function->0.field_text("name"@) == Some(calls[i].name)
            &&& function->0.field_text("arguments"@) == Some(
                encode::compact_text(calls[i].arguments),
            )
            &&& response.metrics->0.finish_reason == Some("tool_calls"@)
            &&& response.metrics->0.tool_call_count == calls.len()
        }),
{
    key_lengths();
    let content = response_view(session_id, event, calls).content;
    let entries = content->Object_0;
    let at = entries.len() - 1;
    assert(json::distinct_keys(entries));
    assert(entries[at].0 == "tool_calls"@);
    json::found_value(entries, at);
    let call = tool_call_json(calls[i])->Object_0;
    assert(json::distinct_keys(call));
    json::found_value(call, 0);
    json::found_value(call, 2);
    let function = call[2].1->Object_0;
    assert(json::distinct_keys(function));
    json::found_value(function, 0);
    json::found_value(function, 1);
}

/// Without captured calls the answer is the text of the assistant, and the model stopped by
/// itself.
pub proof fn answer_without_calls_is_text(session_id: Seq<char>, event: Option<JsonView>)
    ensures
        ({
            let response = response_view(session_id, event, Seq::empty());
            &&& response.content == JsonView::String(assistant_text(event))
            &&& response.metrics->0.finish_reason == Some("stop"@)
            &&& response.metrics->0.tool_call_count == 0
        }),
{
}

/// The text of the assistant is never lost: it is the answer, or stands in it beside the calls,
/// unless it is blank.
pub proof fn answer_keeps_the_text(
    session_id: Seq<char>,
    event: Option<JsonView>,
    calls: Seq<CallView>,
)
    requires
        !text::blank(assistant_text(event)),
    ensures
        ({
            let content = response_view(session_id, event, calls).content;
            ||| content.text() == Some(assistant_text(event))
            ||| content.field_text("text"@) == Some(assistant_text(event))
        }),
{
}

/// What an answer was made from names the provider and the session, and holds the assistant's
/// event.
pub proof fn raw_names_its_origin(
    session_id: Seq<char>,
    event: Option<JsonView>,
    calls: Seq<CallView>,
)
    ensures
        ({
            let raw = response_view(session_id, event, calls).raw;
            &&& raw.field_text("provider"@) == Some(PROVIDER_ID@)
            &&& raw.field_text("session_id"@) == Some(session_id)
            &&& raw.field("assistant_event"@) == Some(
                match event {
                    Some(data) => data,
                    None => JsonView::Null,
                },
            )
        }),
{
    key_lengths();
    let entries = raw_json(session_id, event, calls)->Object_0;
    assert(json::distinct_keys(entries));
    json::found_value(entries, 0);
    json::found_value(entries, 1);
    json::found_value(entries, 2);
}

/// An answer to captured calls lists every one of them and no other, each in its place: among the
/// calls for the host to carry out with its identifier, its name and its arguments as text, and
/// among those that the answer was made from with its arguments as they are. It counts them all.
pub proof fn answer_holds_every_call(
    session_id: Seq<char>,
    event: Option<JsonView>,
    calls: Seq<CallView>,
    i: int,
)
    requires
        0 <= i < calls.len(),
    ensures
        ({
            let response = response_view(session_id, event, calls);
            let listed = response.content.field("tool_calls"@)->0;
            let call = listed->Array_0[i];
            let function = call.field("function"@)->0;
            let captured = response.raw.field("captured_tool_calls"@)->0;
            let kept = captured->Array_0[i];
            &&& response.content.field("tool_calls"@) is Some && listed is Array
            &&& listed->Array_0.len() == calls.len()
            &&& call.field("id"@) == Some(JsonView::String(calls[i].id))
            &&& call.field("type"@) == Some(JsonView::String("function"@))
            &&& call.field("function"@) is Some
            &&& function.field("name"@) == Some(JsonView::String(calls[i].name))
            &&& function.field("arguments"@) == Some(
                JsonView::String(encode::compact_text(calls[i].arguments)),
            )
            &&& response.raw.field("captured_tool_calls"@) is Some && captured is Array
            &&& captured->Array_0.len() == calls.len()
            &&& kept.field("id"@) == Some(JsonView::String(calls[i].id))
            &&& kept.field("name"@) == Some(JsonView::String(calls[i].name))
            &&& kept.field("arguments"@) == Some(calls[i].arguments)
            &&& call->Object_0.len() == 3
            &&& function->Object_0.len() == 2
            &&& kept->Object_0.len() == 3
            &&& response.metrics is Some
            &&& response.metrics->0.tool_call_count == calls.len()
            &&& response.metrics->0.finish_reason == Some("tool_calls"@)
        }),
{
    key_lengths();
    let entries = response_view(session_id, event, calls).content->Object_0;
    let at = entries.len() - 1;
    assert(json::distinct_keys(entries));
    assert(entries[at].0 == "tool_calls"@);
    json::found_value(entries, at);
    let call = tool_call_json(calls[i])->Object_0;
    assert(json::distinct_keys(call));
    json::found_value(call, 0);
    json::found_value(call, 1);
    json::found_value(call, 2);
    let function = call[2].1->Object_0;
    assert(json::distinct_keys(function));
    json::found_value(function, 0);
    json::found_value(function, 1);
    let raw = raw_json(session_id, event, calls)->Object_0;
    assert(json::distinct_keys(raw));
    json::found_value(raw, 3);
    let kept = captured_json(calls[i])->Object_0;
    assert(json::distinct_keys(kept));
    json::found_value(kept, 0);
    json::found_value(kept, 1);
    json::found_value(kept, 2);
}

/// What the assistant's event holds as its `content`, where that is a text, is the text of the
/// answer, unchanged. It is all of the answer where no call was captured. Beside calls it stands as
/// the answer's `text`, unless it is blank, and nothing stands beside the two.
pub proof fn answer_says_what_the_assistant_said(
    session_id: Seq<char>,
    event: Option<JsonView>,
    calls: Seq<CallView>,
    said: Seq<char>,
)
    requires
        event is Some && event->0.field("content"@) == Some(JsonView::String(said)) || said.len()
            == 0 && (event is Some ==> event->0.field_text("content"@) is None),
    ensures
        ({
            let response = response_view(session_id, event, calls);
            &&& calls.len() == 0 ==> {
                &&& response.content == JsonView::String(said)
                &&& response.metrics is Some
                &&& response.metrics->0.tool_call_count == 0
                &&& response.metrics->0.finish_reason == Some("stop"@)
                &&& response.raw.field("captured_tool_calls"@) is Some
                &&& response.raw.field("captured_tool_calls"@)->0 is Array
                &&& response.raw.field("captured_tool_calls"@)->0->Array_0.len() == 0
            }
            &&& calls.len() > 0 && !text::blank(said) ==> {
                &&& response.content.field("text"@) == Some(JsonView::String(said))
                &&& response.content->Object_0.len() == 2
            }
            &&& calls.len() > 0 && text::blank(said) ==> {
                &&& response.content.field("text"@) is None
                &&& response.content->Object_0.len() == 1
            }
            &&& response.raw is Object
            &&& response.raw->Object_0.len() == 4
            &&& response.raw.field("provider"@) == Some(JsonView::String("github-copilot"@))
            &&& response.raw.field("session_id"@) == Some(JsonView::String(session_id))
            &&& event is Some ==> response.raw.field("assistant_event"@) == event
            &&& event is None ==> response.raw.field("assistant_event"@) == Some(JsonView::Null)
        }),
{
    key_lengths();
    assert(assistant_text(event) =~= said);
    let content = response_view(session_id, event, calls).content;
    if calls.len() > 0 {
        let entries = content->Object_0;
        assert(json::distinct_keys(entries));
        json::found_iff_present(entries, "text"@);
        if text::blank(said) {
            assert(entries[0].0.len() != "text"@.len());
        } else {
            assert(entries[0].0 == "text"@);
            json::found_value(entries, 0);
        }
    }
    raw_names_its_origin(session_id, event, calls);
    let raw = raw_json(session_id, event, calls)->Object_0;
    assert(json::distinct_keys(raw));
    json::found_value(raw, 0);
    json::found_value(raw, 1);
    json::found_value(raw, 2);
    json::found_value(raw, 3);
}

/// The model of an answer: its content, what it was made from, and what was counted.
pub proof fn response_has_its_model(response: ProviderResponse)
    ensures
        response@.content == response.content@,
        response@.raw == response.raw@,
        response.metrics is None <==> response@.metrics is None,
        response.metrics is Some ==> {
            let metrics = response.metrics->0;
            &&& response@.metrics->0.tool_call_count == metrics.tool_call_count
            &&& metrics.finish_reason is None <==> response@.metrics->0.finish_reason is None
            &&& metrics.finish_reason is Some ==> response@.metrics->0.finish_reason->0
                == metrics.finish_reason->0@
        },
{
}

} // verus!
