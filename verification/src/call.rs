//! The course of a call: what is done next, given what has come of what was done before.

use vstd::prelude::*;

use crate::encode;
use crate::encode::from_value;
use crate::error;
use crate::error::{provider_error, sdk_error_text, TuraError, TuraErrorView};
use crate::json::{Json, JsonView};
use crate::prompt;
use crate::prompt::canonical_prompt;
use crate::response;
use crate::response::{provider_response, ProviderResponse, ResponseView};
use crate::session;
use crate::session::{
    client_plan, session_plan, wait_timeout_ms, CallRequest, ClientPlan, ClientPlanView,
    RequestView, SessionPlan, SessionPlanView, ToolOffer, ToolOfferView,
};
use crate::text;
use crate::tools;
use crate::tools::{sdk_tools, CallView, CapturedToolCall};

verus! {

/// Where a call stands: what was asked for last, and what has to be remembered until the end.
pub enum CallState {
    /// The client is being started.
    Starting,
    /// The session is being created.
    Opening,
    /// The session could not be created, and the client is being stopped.
    Abandoning { failure: String },
    /// The prompt was sent, and the reply is awaited.
    Sending { session_id: String },
    /// The reply is there, and the events of the session are being forwarded to their end.
    Draining { session_id: String, reply: Result<Option<Json>, String> },
    /// The session is being left.
    Leaving { session_id: String, reply: Result<Option<Json>, String> },
    /// The client is being stopped.
    Closing { session_id: String, reply: Result<Option<Json>, String> },
    /// The call has returned.
    Done,
}

/// What has come of what was asked for. A failure is told by the text that shows it.
pub enum CallEvent {
    ClientStarted(Result<(), String>),
    /// With the identifier of the session.
    SessionCreated(Result<String, String>),
    /// With what the assistant's last event carried, where there was one.
    Replied(Result<Option<Json>, String>),
    StreamDrained,
    Disconnected,
    /// With the calls of tools that were captured.
    ClientStopped(Vec<CapturedToolCall>),
}

/// What is to be done next.
pub enum CallAction {
    StartClient(ClientPlan),
    CreateSession(SessionPlan),
    /// Forward the events of the session from now on if so told, and send the prompt.
    Send { prompt: String, timeout_ms: u64, forward_events: bool },
    /// Wait until the events of the session are forwarded.
    AwaitStream,
    Disconnect,
    StopClient,
    Return(Result<ProviderResponse, TuraError>),
    /// Nothing: the event is none that the call waits for.
    Ignore,
}

/// The model of [`CallState`].
pub enum StateView {
    Starting,
    Opening,
    Abandoning { failure: Seq<char> },
    Sending { session_id: Seq<char> },
    Draining { session_id: Seq<char>, reply: ReplyView },
    Leaving { session_id: Seq<char>, reply: ReplyView },
    Closing { session_id: Seq<char>, reply: ReplyView },
    Done,
}

/// The model of a reply: what it carried, or the text that shows why there is none.
pub type ReplyView = Result<Option<JsonView>, Seq<char>>;

/// The model of [`CallEvent`].
pub enum EventView {
    ClientStarted(Result<(), Seq<char>>),
    SessionCreated(Result<Seq<char>, Seq<char>>),
    Replied(ReplyView),
    StreamDrained,
    Disconnected,
    ClientStopped(Seq<CallView>),
}

/// The model of [`CallAction`].
pub enum ActionView {
    StartClient(ClientPlanView),
    CreateSession(SessionPlanView),
    Send { prompt: Seq<char>, timeout_ms: u64, forward_events: bool },
    AwaitStream,
    Disconnect,
    StopClient,
    Return(Result<ResponseView, TuraErrorView>),
    Ignore,
}

/// The model of a reply.
pub open spec fn reply_view(reply: Result<Option<Json>, String>) -> ReplyView {
    match reply {
        Ok(event) => Ok(response::event_view(event)),
        Err(t) => Err(t@),
    }
}

impl View for CallState {
    type V = StateView;

    open spec fn view(&self) -> StateView {
        match self {
            CallState::Starting => StateView::Starting,
            CallState::Opening => StateView::Opening,
            CallState::Abandoning { failure } => StateView::Abandoning { failure: failure@ },
            CallState::Sending { session_id } => StateView::Sending { session_id: session_id@ },
            CallState::Draining { session_id, reply } => StateView::Draining {
                session_id: session_id@,
                reply: reply_view(*reply),
            },
            CallState::Leaving { session_id, reply } => StateView::Leaving {
                session_id: session_id@,
                reply: reply_view(*reply),
            },
            CallState::Closing { session_id, reply } => StateView::Closing {
                session_id: session_id@,
                reply: reply_view(*reply),
            },
            CallState::Done => StateView::Done,
        }
    }
}

impl View for CallEvent {
    type V = EventView;

    open spec fn view(&self) -> EventView {
        match self {
            CallEvent::ClientStarted(r) => EventView::ClientStarted(
                match *r {
                    Ok(_) => Ok(()),
                    Err(t) => Err(t@),
                },
            ),
            CallEvent::SessionCreated(r) => EventView::SessionCreated(
                match *r {
                    Ok(id) => Ok(id@),
                    Err(t) => Err(t@),
                },
            ),
            CallEvent::Replied(reply) => EventView::Replied(reply_view(*reply)),
            CallEvent::StreamDrained => EventView::StreamDrained,
            CallEvent::Disconnected => EventView::Disconnected,
            CallEvent::ClientStopped(calls) => EventView::ClientStopped(
                tools::call_views(calls@),
            ),
        }
    }
}

impl View for CallAction {
    type V = ActionView;

    open spec fn view(&self) -> ActionView {
        match self {
            CallAction::StartClient(plan) => ActionView::StartClient(plan@),
            CallAction::CreateSession(plan) => ActionView::CreateSession(plan@),
            CallAction::Send { prompt, timeout_ms, forward_events } => ActionView::Send {
                prompt: prompt@,
                timeout_ms: *timeout_ms,
                forward_events: *forward_events,
            },
            CallAction::AwaitStream => ActionView::AwaitStream,
            CallAction::Disconnect => ActionView::Disconnect,
            CallAction::StopClient => ActionView::StopClient,
            CallAction::Return(r) => ActionView::Return(
                match *r {
                    Ok(response) => Ok(response@),
                    Err(error) => Err(error@),
                },
            ),
            CallAction::Ignore => ActionView::Ignore,
        }
    }
}

/// The tools that a call offers.
pub open spec fn offered_tools(request: RequestView) -> ToolOfferView {
    let declared = tools::declarations(request.tools);
    ToolOfferView { tools: declared, available: tools::custom_patterns(declared) }
}

/// What a call returns once its client is stopped.
pub open spec fn result_of(session_id: Seq<char>, reply: ReplyView, calls: Seq<CallView>) -> Result<
    ResponseView,
    TuraErrorView,
> {
    match reply {
        Ok(event) => Ok(response::response_view(session_id, event, calls)),
        Err(t) => Err(error::provider_failure("send Copilot SDK prompt"@, t)),
    }
}

impl CallEvent {
    /// The client could not be started.
    pub fn start_failed(error: github_copilot_sdk::Error) -> (r: CallEvent)
        ensures
            r@ is ClientStarted && r@->ClientStarted_0 is Err,
            error::sdk_message(error) is Some ==> r@ == EventView::ClientStarted(
                Err(error::sdk_message(error)->0),
            ),
    {
        CallEvent::ClientStarted(Err(sdk_error_text(&error)))
    }

    /// The session could not be created.
    pub fn creation_failed(error: github_copilot_sdk::Error) -> (r: CallEvent)
        ensures
            r@ is SessionCreated && r@->SessionCreated_0 is Err,
            error::sdk_message(error) is Some ==> r@ == EventView::SessionCreated(
                Err(error::sdk_message(error)->0),
            ),
    {
        CallEvent::SessionCreated(Err(sdk_error_text(&error)))
    }

    /// What came of the prompt: what the assistant's last event carried, where there was one, or
    /// why there is no reply.
    pub fn replied(reply: Result<Option<serde_json::Value>, github_copilot_sdk::Error>) -> (r:
        CallEvent)
        ensures
            match reply {
                Ok(Some(data)) => r@ == EventView::Replied(Ok(Some(encode::value_model(data)))),
                Ok(None) => r@ == EventView::Replied(Ok(None)),
                Err(error) => {
                    &&& r@ is Replied && r@->Replied_0 is Err
                    &&& error::sdk_message(error) is Some ==> r@ == EventView::Replied(
                        Err(error::sdk_message(error)->0),
                    )
                },
            },
    {
        match reply {
            Ok(Some(data)) => CallEvent::Replied(Ok(Some(from_value(data)))),
            Ok(None) => CallEvent::Replied(Ok(None)),
            Err(error) => CallEvent::Replied(Err(sdk_error_text(&error))),
        }
    }
}

/// How a call goes on.
pub open spec fn next(request: RequestView, state: StateView, event: EventView) -> (
    StateView,
    ActionView,
) {
    match (state, event) {
        (StateView::Starting, EventView::ClientStarted(Err(t))) => (
            StateView::Done,
            ActionView::Return(Err(error::provider_failure("start Copilot SDK client"@, t))),
        ),
        (StateView::Starting, EventView::ClientStarted(Ok(_))) => match tools::first_refusal(
            request.tools,
        ) {
            Some(error) => (StateView::Done, ActionView::Return(Err(error))),
            None => (
                StateView::Opening,
                ActionView::CreateSession(
                    session::session_setup(request, offered_tools(request)),
                ),
            ),
        },
        (StateView::Opening, EventView::SessionCreated(Err(t))) => (
            StateView::Abandoning { failure: t },
            ActionView::StopClient,
        ),
        (StateView::Opening, EventView::SessionCreated(Ok(id))) => (
            StateView::Sending { session_id: id },
            ActionView::Send {
                prompt: prompt::prompt_text(request.messages),
                timeout_ms: if request.total_timeout_ms == 0 {
                    1
                } else {
                    request.total_timeout_ms
                },
                forward_events: request.has_stream_sink,
            },
        ),
        (StateView::Abandoning { failure }, EventView::ClientStopped(_)) => (
            StateView::Done,
            ActionView::Return(
                Err(error::provider_failure("create Copilot SDK session"@, failure)),
            ),
        ),
        (StateView::Sending { session_id }, EventView::Replied(reply)) => if request.has_stream_sink {
            (StateView::Draining { session_id, reply }, ActionView::AwaitStream)
        } else {
            (StateView::Leaving { session_id, reply }, ActionView::Disconnect)
        },
        (StateView::Draining { session_id, reply }, EventView::StreamDrained) => (
            StateView::Leaving { session_id, reply },
            ActionView::Disconnect,
        ),
        (StateView::Leaving { session_id, reply }, EventView::Disconnected) => (
            StateView::Closing { session_id, reply },
            ActionView::StopClient,
        ),
        (StateView::Closing { session_id, reply }, EventView::ClientStopped(calls)) => (
            StateView::Done,
            ActionView::Return(result_of(session_id, reply, calls)),
        ),
        _ => (state, ActionView::Ignore),
    }
}

/// Begins a call: the client is started.
pub fn begin(request: &CallRequest) -> (r: (CallState, CallAction))
    ensures
        r.0@ == StateView::Starting,
        r.1@ == ActionView::StartClient(session::client_setup(request@.access_token)),
{
    (CallState::Starting, CallAction::StartClient(client_plan(request.access_token.as_str())))
}

/// Goes on with a call, given what has come of what was asked for last.
pub fn step(request: &CallRequest, state: CallState, event: CallEvent) -> (r: (
    CallState,
    CallAction,
))
    ensures
        (r.0@, r.1@) == next(request@, state@, event@),
{
    match (state, event) {
        (CallState::Starting, CallEvent::ClientStarted(Err(t))) => (
            CallState::Done,
            CallAction::Return(Err(provider_error("start Copilot SDK client", t.as_str()))),
        ),
        (CallState::Starting, CallEvent::ClientStarted(Ok(_))) => match sdk_tools(
            request.tools(),
        ) {
            Err(error) => (CallState::Done, CallAction::Return(Err(error))),
            Ok((tools, available)) => (
                CallState::Opening,
                CallAction::CreateSession(session_plan(request, ToolOffer { tools, available })),
            ),
        },
        (CallState::Opening, CallEvent::SessionCreated(Err(t))) => (
            CallState::Abandoning { failure: t },
            CallAction::StopClient,
        ),
        (CallState::Opening, CallEvent::SessionCreated(Ok(id))) => match canonical_prompt(
            request.messages.as_slice(),
        ) {
            Err(error) => (CallState::Done, CallAction::Return(Err(error))),
            Ok(prompt) => (
                CallState::Sending { session_id: id },
                CallAction::Send {
                    prompt,
                    timeout_ms: wait_timeout_ms(request.total_timeout_ms),
                    forward_events: request.has_stream_sink,
                },
            ),
        },
        (CallState::Abandoning { failure }, CallEvent::ClientStopped(_)) => (
            CallState::Done,
            CallAction::Return(
                Err(provider_error("create Copilot SDK session", failure.as_str())),
            ),
        ),
        (CallState::Sending { session_id }, CallEvent::Replied(reply)) => {
            if request.has_stream_sink {
                (CallState::Draining { session_id, reply }, CallAction::AwaitStream)
            } else {
                (CallState::Leaving { session_id, reply }, CallAction::Disconnect)
            }
        },
        (CallState::Draining { session_id, reply }, CallEvent::StreamDrained) => (
            CallState::Leaving { session_id, reply },
            CallAction::Disconnect,
        ),
        (CallState::Leaving { session_id, reply }, CallEvent::Disconnected) => (
            CallState::Closing { session_id, reply },
            CallAction::StopClient,
        ),
        (CallState::Closing { session_id, reply }, CallEvent::ClientStopped(calls)) => {
            let result = match reply {
                Ok(event) => Ok(provider_response(session_id.as_str(), event, &calls)),
                Err(t) => Err(provider_error("send Copilot SDK prompt", t.as_str())),
            };
            (CallState::Done, CallAction::Return(result))
        },
        (state, _) => (state, CallAction::Ignore),
    }
}

/// Where a call stands after a list of events.
pub open spec fn state_after(
    request: RequestView,
    state: StateView,
    events: Seq<EventView>,
) -> StateView
    decreases events.len(),
{
    if events.len() == 0 {
        state
    } else {
        state_after(request, next(request, state, events.first()).0, events.drop_first())
    }
}

/// What a call does about a list of events, an action for each event.
pub open spec fn actions(
    request: RequestView,
    state: StateView,
    events: Seq<EventView>,
) -> Seq<ActionView>
    decreases events.len(),
{
    if events.len() == 0 {
        Seq::empty()
    } else {
        let (then, action) = next(request, state, events.first());
        seq![action] + actions(request, then, events.drop_first())
    }
}

proof fn one_action_for_each_event(request: RequestView, state: StateView, events: Seq<EventView>)
    ensures
        actions(request, state, events).len() == events.len(),
    decreases events.len(),
{
    if events.len() > 0 {
        one_action_for_each_event(
            request,
            next(request, state, events.first()).0,
            events.drop_first(),
        );
    }
}

/// The action for an event, and those for the events behind it, from where the call then stands.
proof fn actions_from(request: RequestView, state: StateView, events: Seq<EventView>, i: int)
    requires
        0 <= i < events.len(),
    ensures
        ({
            let here = state_after(request, state, events.take(i));
            let then = state_after(request, state, events.take(i + 1));
            let all = actions(request, state, events);
            &&& all.len() == events.len()
            &&& (then, all[i]) == next(request, here, events[i])
            &&& all.skip(i + 1) == actions(request, then, events.skip(i + 1))
        }),
    decreases events.len(),
{
    let all = actions(request, state, events);
    let (then, action) = next(request, state, events.first());
    let rest = events.drop_first();
    one_action_for_each_event(request, state, events);
    if i == 0 {
        assert(events.take(1).drop_first() =~= Seq::empty());
        assert(events.take(1).first() == events.first());
        assert(events.skip(1) =~= rest);
        reveal_with_fuel(state_after, 2);
        assert(all.skip(1) =~= actions(request, then, rest));
    } else {
        actions_from(request, then, rest, i - 1);
        assert(events.take(i).drop_first() =~= rest.take(i - 1));
        assert(events.take(i).first() == events.first());
        assert(events.take(i + 1).drop_first() =~= rest.take(i));
        assert(events.take(i + 1).first() == events.first());
        assert(events.skip(i + 1) =~= rest.skip(i));
        assert(all.skip(i + 1) =~= actions(request, then, rest).skip(i));
    }
}

/// From a state in which there is a client, the call stops the client before it returns; from one
/// in which there is a session, it leaves the session before that.
proof fn cleaned_up_before_return(
    request: RequestView,
    state: StateView,
    events: Seq<EventView>,
    k: int,
)
    requires
        0 <= k < events.len(),
        actions(request, state, events)[k] is Return,
    ensures
        ({
            let all = actions(request, state, events);
            &&& state is Opening || state is Leaving ==> exists|b: int|
                0 <= b < k && #[trigger] all[b] is StopClient
            &&& state is Sending || state is Draining ==> exists|a: int, b: int|
                0 <= a < b < k && #[trigger] all[a] is Disconnect && #[trigger] all[b] is StopClient
        }),
    decreases events.len(),
{
    let all = actions(request, state, events);
    let (then, action) = next(request, state, events.first());
    let rest = actions(request, then, events.drop_first());
    one_action_for_each_event(request, then, events.drop_first());
    assert(all[0] == action);
    assert(forall|j: int| 0 <= j < rest.len() ==> #[trigger] all[j + 1] == rest[j]);
    if k > 0 {
        assert(all[k] == rest[k - 1]);
        cleaned_up_before_return(request, then, events.drop_first(), k - 1);
        if then is Opening || then is Leaving {
            let b = choose|b: int| 0 <= b < k - 1 && #[trigger] rest[b] is StopClient;
            assert(all[b + 1] is StopClient);
        }
        if then is Sending || then is Draining {
            let (a, b) = choose|a: int, b: int|
                0 <= a < b < k - 1 && #[trigger] rest[a] is Disconnect
                    && #[trigger] rest[b] is StopClient;
            assert(all[a + 1] is Disconnect && all[b + 1] is StopClient);
        }
    }
}

/// A call that has sent its prompt leaves the session and then stops the client before it
/// returns, whatever comes of the prompt.
pub proof fn session_is_left_before_return(
    request: RequestView,
    events: Seq<EventView>,
    i: int,
    k: int,
)
    requires
        0 <= i < k < events.len(),
        actions(request, StateView::Starting, events)[i] is Send,
        actions(request, StateView::Starting, events)[k] is Return,
    ensures
        exists|a: int, b: int|
            i < a < b < k && #[trigger] actions(request, StateView::Starting, events)[a]
                is Disconnect && #[trigger] actions(request, StateView::Starting, events)[b]
                is StopClient,
{
    let all = actions(request, StateView::Starting, events);
    actions_from(request, StateView::Starting, events, i);
    let then = state_after(request, StateView::Starting, events.take(i + 1));
    let rest = all.skip(i + 1);
    assert(rest[k - i - 1] == all[k]);
    cleaned_up_before_return(request, then, events.skip(i + 1), k - i - 1);
    let (a, b) = choose|a: int, b: int|
        0 <= a < b < k - i - 1 && #[trigger] rest[a] is Disconnect && #[trigger] rest[b]
            is StopClient;
    assert(all[i + 1 + a] is Disconnect && all[i + 1 + b] is StopClient);
}

/// A call that has asked for a session stops the client before it returns, whether it got the
/// session or not.
pub proof fn client_is_stopped_before_return(
    request: RequestView,
    events: Seq<EventView>,
    i: int,
    k: int,
)
    requires
        0 <= i < k < events.len(),
        actions(request, StateView::Starting, events)[i] is CreateSession,
        actions(request, StateView::Starting, events)[k] is Return,
    ensures
        exists|b: int|
            i < b < k && #[trigger] actions(request, StateView::Starting, events)[b] is StopClient,
{
    let all = actions(request, StateView::Starting, events);
    actions_from(request, StateView::Starting, events, i);
    let then = state_after(request, StateView::Starting, events.take(i + 1));
    let rest = all.skip(i + 1);
    assert(rest[k - i - 1] == all[k]);
    cleaned_up_before_return(request, then, events.skip(i + 1), k - i - 1);
    let b = choose|b: int| 0 <= b < k - i - 1 && #[trigger] rest[b] is StopClient;
    assert(all[i + 1 + b] is StopClient);
}

proof fn nothing_is_done_once_done(request: RequestView, events: Seq<EventView>, j: int)
    requires
        0 <= j < events.len(),
    ensures
        actions(request, StateView::Done, events).len() == events.len(),
        actions(request, StateView::Done, events)[j] is Ignore,
    decreases events.len(),
{
    one_action_for_each_event(request, StateView::Done, events);
    if j > 0 {
        nothing_is_done_once_done(request, events.drop_first(), j - 1);
    }
}

/// A call returns once, and does nothing after that.
pub proof fn call_returns_once(request: RequestView, events: Seq<EventView>, k: int, j: int)
    requires
        0 <= k < j < events.len(),
        actions(request, StateView::Starting, events)[k] is Return,
    ensures
        actions(request, StateView::Starting, events)[j] is Ignore,
{
    let all = actions(request, StateView::Starting, events);
    actions_from(request, StateView::Starting, events, k);
    nothing_is_done_once_done(request, events.skip(k + 1), j - k - 1);
    assert(all.skip(k + 1)[j - k - 1] == all[j]);
}

/// An event that the call does not wait for changes nothing.
pub proof fn stray_events_change_nothing(
    request: RequestView,
    state: StateView,
    event: EventView,
)
    requires
        next(request, state, event).1 is Ignore,
    ensures
        next(request, state, event).0 == state,
{
}

/// The events of a call that gets its session and waits for its reply.
pub open spec fn full_course(
    request: RequestView,
    session_id: Seq<char>,
    reply: ReplyView,
    calls: Seq<CallView>,
) -> Seq<EventView> {
    let opened = seq![
        EventView::ClientStarted(Ok(())),
        EventView::SessionCreated(Ok(session_id)),
        EventView::Replied(reply),
    ];
    let closed = seq![EventView::Disconnected, EventView::ClientStopped(calls)];
    if request.has_stream_sink {
        opened + seq![EventView::StreamDrained] + closed
    } else {
        opened + closed
    }
}

/// A call whose tools are in order, and which gets its session, creates the session, sends the
/// prompt, forwards the events to their end where the host listens, leaves the session, stops the
/// client, and returns what came of the prompt: in this order, and nothing else.
pub proof fn course_of_a_call(
    request: RequestView,
    session_id: Seq<char>,
    reply: ReplyView,
    calls: Seq<CallView>,
)
    requires
        tools::first_refusal(request.tools) is None,
    ensures
        ({
            let events = full_course(request, session_id, reply, calls);
            let opened = seq![
                ActionView::CreateSession(session::session_setup(request, offered_tools(request))),
                ActionView::Send {
                    prompt: prompt::prompt_text(request.messages),
                    timeout_ms: if request.total_timeout_ms == 0 {
                        1
                    } else {
                        request.total_timeout_ms
                    },
                    forward_events: request.has_stream_sink,
                },
            ];
            let forwarded = if request.has_stream_sink {
                seq![ActionView::AwaitStream]
            } else {
                Seq::empty()
            };
            let closed = seq![
                ActionView::Disconnect,
                ActionView::StopClient,
                ActionView::Return(result_of(session_id, reply, calls)),
            ];
            actions(request, StateView::Starting, events) == opened + forwarded + closed
        }),
{
    let events = full_course(request, session_id, reply, calls);
    reveal_with_fuel(actions, 7);
    if request.has_stream_sink {
        let e1 = events.drop_first();
        let e2 = e1.drop_first();
        let e3 = e2.drop_first();
        let e4 = e3.drop_first();
        let e5 = e4.drop_first();
        assert(e1.first() == events[1] && e2.first() == events[2] && e3.first() == events[3]);
        assert(e4.first() == events[4] && e5.first() == events[5]);
        assert(e5.drop_first() =~= Seq::empty());
    } else {
        let e1 = events.drop_first();
        let e2 = e1.drop_first();
        let e3 = e2.drop_first();
        let e4 = e3.drop_first();
        assert(e1.first() == events[1] && e2.first() == events[2] && e3.first() == events[3]);
        assert(e4.first() == events[4]);
        assert(e4.drop_first() =~= Seq::empty());
    }
}

/// A call whose tools are in order, and which does not get its session, stops the client and
/// returns why: in this order, and nothing else.
pub proof fn course_of_an_abandoned_call(
    request: RequestView,
    failure: Seq<char>,
    calls: Seq<CallView>,
)
    requires
        tools::first_refusal(request.tools) is None,
    ensures
        actions(
            request,
            StateView::Starting,
            seq![
                EventView::ClientStarted(Ok(())),
                EventView::SessionCreated(Err(failure)),
                EventView::ClientStopped(calls),
            ],
        ) == seq![
            ActionView::CreateSession(session::session_setup(request, offered_tools(request))),
            ActionView::StopClient,
            ActionView::Return(
                Err(error::provider_failure("create Copilot SDK session"@, failure)),
            ),
        ],
{
    let events = seq![
        EventView::ClientStarted(Ok(())),
        EventView::SessionCreated(Err(failure)),
        EventView::ClientStopped(calls),
    ];
    reveal_with_fuel(actions, 4);
    let e1 = events.drop_first();
    let e2 = e1.drop_first();
    assert(e1.first() == events[1] && e2.first() == events[2]);
    assert(e2.drop_first() =~= Seq::empty());
}

/// A call that cannot start its client, or one of whose tools is at fault, returns at once, and
/// says which of the two it was.
pub proof fn call_without_a_session(request: RequestView, failure: Seq<char>)
    ensures
        actions(
            request,
            StateView::Starting,
            seq![EventView::ClientStarted(Err(failure))],
        ) == seq![
            ActionView::Return(
                Err(error::provider_failure("start Copilot SDK client"@, failure)),
            ),
        ],
        tools::first_refusal(request.tools) is Some ==> actions(
            request,
            StateView::Starting,
            seq![EventView::ClientStarted(Ok(()))],
        ) == seq![ActionView::Return(Err(tools::first_refusal(request.tools)->0))],
{
    reveal_with_fuel(actions, 2);
    assert(seq![EventView::ClientStarted(Err(failure))].drop_first() =~= Seq::empty());
    assert(seq![EventView::ClientStarted(Ok(()))].drop_first() =~= Seq::empty());
}

/// A call whose session replied, and whose client is then stopped, returns an answer that holds
/// every captured call and no other, each in its place: for the host to carry out with its
/// identifier, its name and its arguments as text, and as it was captured. The answer counts them
/// all.
pub proof fn closed_call_returns_every_captured_call(
    request: RequestView,
    session_id: Seq<char>,
    event: Option<JsonView>,
    calls: Seq<CallView>,
    i: int,
)
    requires
        0 <= i < calls.len(),
    ensures
        ({
            let (then, action) = next(
                request,
                StateView::Closing { session_id, reply: Ok(event) },
                EventView::ClientStopped(calls),
            );
            let answer = action->Return_0->Ok_0;
            let listed = answer.content.field("tool_calls"@)->0;
            let call = listed->Array_0[i];
            let function = call.field("function"@)->0;
            let captured = answer.raw.field("captured_tool_calls"@)->0;
            let kept = captured->Array_0[i];
            &&& then is Done
            &&& action is Return && action->Return_0 is Ok
            &&& answer.content.field("tool_calls"@) is Some && listed is Array
            &&& listed->Array_0.len() == calls.len()
            &&& call.field("id"@) == Some(JsonView::String(calls[i].id))
            &&& call.field("type"@) == Some(JsonView::String("function"@))
            &&& call.field("function"@) is Some
            &&& function.field("name"@) == Some(JsonView::String(calls[i].name))
            &&& function.field("arguments"@) == Some(
                JsonView::String(encode::compact_text(calls[i].arguments)),
            )
            &&& answer.raw.field("captured_tool_calls"@) is Some && captured is Array
            &&& captured->Array_0.len() == calls.len()
            &&& kept.field("id"@) == Some(JsonView::String(calls[i].id))
            &&& kept.field("name"@) == Some(JsonView::String(calls[i].name))
            &&& kept.field("arguments"@) == Some(calls[i].arguments)
            &&& answer.metrics is Some
            &&& answer.metrics->0.tool_call_count == calls.len()
            &&& answer.metrics->0.finish_reason == Some("tool_calls"@)
        }),
{
    response::answer_holds_every_call(session_id, event, calls, i);
}

/// A call whose session replied, and whose client is then stopped, returns what the assistant's
/// event holds as its `content`, where that is a text: as the whole answer where no call was
/// captured, and else beside the calls, unless it is blank. The answer names the session and holds
/// the event.
pub proof fn closed_call_returns_what_the_assistant_said(
    request: RequestView,
    session_id: Seq<char>,
    event: Option<JsonView>,
    calls: Seq<CallView>,
    said: Seq<char>,
)
    requires
        event is Some && event->0.field("content"@) == Some(JsonView::String(said)) || said.len()
            == 0 && (event is Some ==> event->0.field_text("content"@) is None),
    ensures
        ({
            let (then, action) = next(
                request,
                StateView::Closing { session_id, reply: Ok(event) },
                EventView::ClientStopped(calls),
            );
            let answer = action->Return_0->Ok_0;
            &&& then is Done
            &&& action is Return && action->Return_0 is Ok
            &&& calls.len() == 0 ==> {
                &&& answer.content == JsonView::String(said)
                &&& answer.metrics is Some
                &&& answer.metrics->0.tool_call_count == 0
                &&& answer.metrics->0.finish_reason == Some("stop"@)
                &&& answer.raw.field("captured_tool_calls"@) is Some
                &&& answer.raw.field("captured_tool_calls"@)->0 is Array
                &&& answer.raw.field("captured_tool_calls"@)->0->Array_0.len() == 0
            }
            &&& calls.len() > 0 && !text::blank(said) ==> answer.content.field("text"@) == Some(
                JsonView::String(said),
            )
            &&& calls.len() > 0 && text::blank(said) ==> answer.content.field("text"@) is None
            &&& answer.raw.field("provider"@) == Some(JsonView::String("github-copilot"@))
            &&& answer.raw.field("session_id"@) == Some(JsonView::String(session_id))
            &&& event is Some ==> answer.raw.field("assistant_event"@) == event
            &&& event is None ==> answer.raw.field("assistant_event"@) == Some(JsonView::Null)
        }),
{
    response::answer_says_what_the_assistant_said(session_id, event, calls, said);
}

/// A call whose prompt failed returns, once its client is stopped, that sending the prompt failed
/// and why, whatever was captured.
pub proof fn closed_call_returns_why_the_prompt_failed(
    request: RequestView,
    session_id: Seq<char>,
    failure: Seq<char>,
    calls: Seq<CallView>,
)
    ensures
        next(
            request,
            StateView::Closing { session_id, reply: Err(failure) },
            EventView::ClientStopped(calls),
        ) == (
            StateView::Done,
            ActionView::Return(
                Err(
                    TuraErrorView::ProviderRequest {
                        provider: "github-copilot"@,
                        message: "send Copilot SDK prompt"@ + ": "@ + failure,
                    },
                ),
            ),
        ),
{
}

/// A call keeps the session's identifier and the reply as they came, until its client is stopped.
pub proof fn reply_is_kept_until_the_end(
    request: RequestView,
    session_id: Seq<char>,
    reply: ReplyView,
    calls: Seq<CallView>,
)
    requires
        tools::first_refusal(request.tools) is None,
    ensures
        actions(
            request,
            StateView::Starting,
            full_course(request, session_id, reply, calls),
        ).last() == next(
            request,
            StateView::Closing { session_id, reply },
            EventView::ClientStopped(calls),
        ).1,
{
    course_of_a_call(request, session_id, reply, calls);
}

/// In every state a call waits for one event, and does nothing about any other: for the client to
/// start, for the session to be created, for the reply, for the end of the stream, for the session
/// to be left, or for the client to stop. Once it has returned it waits for none.
pub proof fn call_waits_for_one_event(request: RequestView, state: StateView, event: EventView)
    ensures
        next(request, state, event).1 is Ignore <==> {
            &&& !(state is Starting && event is ClientStarted)
            &&& !(state is Opening && event is SessionCreated)
            &&& !(state is Abandoning && event is ClientStopped)
            &&& !(state is Sending && event is Replied)
            &&& !(state is Draining && event is StreamDrained)
            &&& !(state is Leaving && event is Disconnected)
            &&& !(state is Closing && event is ClientStopped)
        },
        next(request, state, event).1 is Ignore ==> next(request, state, event).0 == state,
{
}

/// The session that a call creates is offered every declared tool, and may use each of them by its
/// own pattern and nothing else. It is told the system message for the call's messages.
pub proof fn created_session_offers_every_declared_tool(request: RequestView, i: int)
    requires
        tools::first_refusal(request.tools) is None,
        0 <= i < tools::declarations(request.tools).len(),
    ensures
        ({
            let (then, action) = next(
                request,
                StateView::Starting,
                EventView::ClientStarted(Ok(())),
            );
            let plan = action->CreateSession_0;
            let declared = tools::declarations(request.tools);
            &&& then is Opening
            &&& action is CreateSession
            &&& plan.offer is Some
            &&& plan.offer->0.tools == declared
            &&& plan.offer->0.available.len() == declared.len()
            &&& plan.offer->0.available[i] == "custom:"@ + declared[i].name
            &&& plan.system_message == prompt::system_text(
                request.messages,
                request.tools.len() > 0,
            )
        }),
{
}

/// The session that a call creates is set up as the call asks, and is offered nothing where no tool
/// is declared.
pub proof fn created_session_does_what_the_call_asks(request: RequestView)
    requires
        tools::first_refusal(request.tools) is None,
    ensures
        ({
            let (then, action) = next(
                request,
                StateView::Starting,
                EventView::ClientStarted(Ok(())),
            );
            let plan = action->CreateSession_0;
            let effort = request.reasoning_effort;
            let name = text::trimmed(request.model);
            let automatic = text::same_but_for_ascii_case(name, "auto"@)
                || text::same_but_for_ascii_case(name, "default"@) || text::same_but_for_ascii_case(
                name,
                "copilot"@,
            );
            &&& then is Opening
            &&& action is CreateSession
            &&& tools::declarations(request.tools).len() == 0 ==> plan.offer is None
            &&& automatic ==> plan.model is None
            &&& !automatic ==> plan.model == Some(request.model)
            &&& effort is Some && !text::blank(effort->0) ==> plan.reasoning_effort == effort
            &&& (effort is Some ==> text::blank(effort->0)) ==> plan.reasoning_effort is None
            &&& plan.streaming <==> request.has_stream_sink || request.stream == Some(true)
            &&& plan.deny_all_permissions
            &&& !plan.enable_config_discovery
            &&& !plan.enable_host_git_operations
            &&& !plan.enable_skills
            &&& !plan.enable_session_store
            &&& plan.skip_embedding_retrieval
            &&& plan.system_message == prompt::system_text(
                request.messages,
                request.tools.len() > 0,
            )
            &&& plan.system_message_mode == "customize"@
            &&& plan.client_name == "tura"@
        }),
{
    session::model_is_handed_on(request, offered_tools(request));
    session::session_does_what_the_call_asks(request, offered_tools(request));
}

/// The model of an event tells which event it is and all that came with it: an identifier or a
/// failure as it is, what the reply carried, and every captured call, in order.
pub proof fn event_has_its_model(event: CallEvent)
    ensures
        event@ is ClientStarted <==> event is ClientStarted,
        event@ is SessionCreated <==> event is SessionCreated,
        event@ is Replied <==> event is Replied,
        event@ is StreamDrained <==> event is StreamDrained,
        event@ is Disconnected <==> event is Disconnected,
        event@ is ClientStopped <==> event is ClientStopped,
        event matches CallEvent::ClientStarted(r) ==> match r {
            Ok(_) => event@->ClientStarted_0 is Ok,
            Err(t) => event@->ClientStarted_0 == Result::<(), Seq<char>>::Err(t@),
        },
        event matches CallEvent::SessionCreated(r) ==> match r {
            Ok(id) => event@->SessionCreated_0 == Result::<Seq<char>, Seq<char>>::Ok(id@),
            Err(t) => event@->SessionCreated_0 == Result::<Seq<char>, Seq<char>>::Err(t@),
        },
        event matches CallEvent::Replied(reply) ==> match reply {
            Ok(Some(data)) => event@->Replied_0 == ReplyView::Ok(Some(data@)),
            Ok(None) => event@->Replied_0 == ReplyView::Ok(None),
            Err(t) => event@->Replied_0 == ReplyView::Err(t@),
        },
        event matches CallEvent::ClientStopped(calls) ==> {
            &&& event@->ClientStopped_0.len() == calls@.len()
            &&& forall|i: int|
                0 <= i < calls@.len() ==> {
                    &&& (#[trigger] event@->ClientStopped_0[i]).id == calls@[i].id@
                    &&& event@->ClientStopped_0[i].name == calls@[i].name@
                    &&& event@->ClientStopped_0[i].arguments == calls@[i].arguments@
                }
        },
{
}

/// The model of an action tells which action it is and all that it is done with.
pub proof fn action_has_its_model(action: CallAction)
    ensures
        action@ is AwaitStream <==> action is AwaitStream,
        action@ is Disconnect <==> action is Disconnect,
        action@ is StopClient <==> action is StopClient,
        action@ is Ignore <==> action is Ignore,
        action@ is StartClient <==> action is StartClient,
        action@ is CreateSession <==> action is CreateSession,
        action@ is Send <==> action is Send,
        action@ is Return <==> action is Return,
        action matches CallAction::StartClient(plan) ==> action@->StartClient_0 == plan@,
        action matches CallAction::CreateSession(plan) ==> action@->CreateSession_0 == plan@,
        action matches CallAction::Send { prompt, timeout_ms, forward_events } ==> {
            &&& action@->prompt == prompt@
            &&& action@->timeout_ms == timeout_ms
            &&& action@->forward_events == forward_events
        },
        action matches CallAction::Return(r) ==> match r {
            Ok(response) => action@->Return_0 == Result::<ResponseView, TuraErrorView>::Ok(
                response@,
            ),
            Err(error) => action@->Return_0 == Result::<ResponseView, TuraErrorView>::Err(error@),
        },
{
}

/// The model of a state tells which state it is and all that is remembered in it.
pub proof fn state_has_its_model(state: CallState)
    ensures
        state@ is Starting <==> state is Starting,
        state@ is Opening <==> state is Opening,
        state@ is Done <==> state is Done,
        state matches CallState::Abandoning { failure } ==> state@ == (StateView::Abandoning {
            failure: failure@,
        }),
        state matches CallState::Sending { session_id } ==> state@ == (StateView::Sending {
            session_id: session_id@,
        }),
        state matches CallState::Draining { session_id, reply } ==> state@ == (
        StateView::Draining { session_id: session_id@, reply: CallEvent::Replied(reply)@->Replied_0 }),
        state matches CallState::Leaving { session_id, reply } ==> state@ == (StateView::Leaving {
            session_id: session_id@,
            reply: CallEvent::Replied(reply)@->Replied_0,
        }),
        state matches CallState::Closing { session_id, reply } ==> state@ == (StateView::Closing {
            session_id: session_id@,
            reply: CallEvent::Replied(reply)@->Replied_0,
        }),
{
}

} // verus!
