//! Forwarding the events of a session to the host while the model answers.

use vstd::prelude::*;

use crate::json::{Json, JsonView};
use crate::text::same_text;

verus! {

/// What the host is told while the model answers.
#[derive(Debug)]
pub enum ProviderStreamEvent {
    /// The model has begun to answer.
    ProviderOutputStarted,
    /// The answer goes on with this text.
    TextDelta { text: String },
}

/// The model of [`ProviderStreamEvent`].
pub enum StreamView {
    ProviderOutputStarted,
    TextDelta(Seq<char>),
}

impl View for ProviderStreamEvent {
    type V = StreamView;

    open spec fn view(&self) -> StreamView {
        match self {
            ProviderStreamEvent::ProviderOutputStarted => StreamView::ProviderOutputStarted,
            ProviderStreamEvent::TextDelta { text } => StreamView::TextDelta(text@),
        }
    }
}

/// The models of a list of events for the host.
pub open spec fn stream_views(events: Seq<ProviderStreamEvent>) -> Seq<StreamView> {
    events.map_values(|event: ProviderStreamEvent| event@)
}

/// An event of a session: its type and what it carries.
pub struct SessionEventView {
    pub event_type: Seq<char>,
    pub data: JsonView,
}

/// The session is done, well or not, and no event of the answer follows.
pub open spec fn ends_stream(event: SessionEventView) -> bool {
    event.event_type == "session.idle"@ || event.event_type == "session.error"@
}

/// The text that an event adds to the answer: what it holds as its `delta`, or as its `content`
/// where it has no `delta`. An event of another type adds nothing, and neither does a value that
/// is no text.
pub open spec fn added_text(event: SessionEventView) -> Seq<char> {
    let source = match event.data.field("delta"@) {
        Some(delta) => Some(delta),
        None => event.data.field("content"@),
    };
    if event.event_type == "assistant.message_delta"@ {
        match source {
            Some(value) => match value.text() {
                Some(t) => t,
                None => Seq::empty(),
            },
            None => Seq::empty(),
        }
    } else {
        Seq::empty()
    }
}

/// What the host is told of an event, given whether the answer had begun before it.
pub open spec fn told_of(started: bool, event: SessionEventView) -> Seq<StreamView> {
    let added = added_text(event);
    if added.len() == 0 {
        Seq::empty()
    } else if started {
        seq![StreamView::TextDelta(added)]
    } else {
        seq![StreamView::ProviderOutputStarted, StreamView::TextDelta(added)]
    }
}

/// Whether the answer has begun once an event is seen.
pub open spec fn started_after(started: bool, event: SessionEventView) -> bool {
    started || added_text(event).len() > 0
}

/// What the host is told of the events of a session, up to the event that ends them.
pub open spec fn told(started: bool, events: Seq<SessionEventView>) -> Seq<StreamView>
    decreases events.len(),
{
    if events.len() == 0 || ends_stream(events.first()) {
        Seq::empty()
    } else {
        told_of(started, events.first()) + told(
            started_after(started, events.first()),
            events.drop_first(),
        )
    }
}

/// The texts that the events of a session add to the answer, up to the event that ends them.
pub open spec fn answer_texts(events: Seq<SessionEventView>) -> Seq<Seq<char>>
    decreases events.len(),
{
    if events.len() == 0 || ends_stream(events.first()) {
        Seq::empty()
    } else {
        let rest = answer_texts(events.drop_first());
        if added_text(events.first()).len() > 0 {
            seq![added_text(events.first())] + rest
        } else {
            rest
        }
    }
}

/// What the forwarder remembers: whether the answer has begun.
#[derive(Debug)]
pub struct StreamForwarder {
    pub started: bool,
}

/// What is to be done about an event of a session.
#[derive(Debug)]
pub enum Forwarding {
    /// Tell the host of these events, in order, and wait for the next event of the session.
    Tell(Vec<ProviderStreamEvent>),
    /// Stop: the session is done.
    Stop,
}

impl StreamForwarder {
    /// A forwarder that has seen no event.
    pub fn new() -> (r: StreamForwarder)
        ensures
            !r.started,
    {
        StreamForwarder { started: false }
    }

    /// Takes an event of the session and says what is to be done about it.
    pub fn forward(&mut self, event_type: &str, data: &Json) -> (r: Forwarding)
        ensures
            ({
                let event = SessionEventView { event_type: event_type@, data: data@ };
                match r {
                    Forwarding::Tell(events) => {
                        &&& !ends_stream(event)
                        &&& stream_views(events@) == told_of(old(self).started, event)
                        &&& final(self).started == started_after(old(self).started, event)
                    },
                    Forwarding::Stop => ends_stream(event) && *final(self) == *old(self),
                }
            }),
    {
        let ghost event = SessionEventView { event_type: event_type@, data: data@ };
        let mut events: Vec<ProviderStreamEvent> = Vec::new();
        assert(stream_views(events@) =~= Seq::empty());
        proof {
            reveal_strlit("assistant.message_delta");
            reveal_strlit("session.idle");
            reveal_strlit("session.error");
            reveal_strlit("");
            assert("assistant.message_delta"@.len() != "session.idle"@.len());
            assert("assistant.message_delta"@.len() != "session.error"@.len());
            assert(""@ =~= Seq::empty());
        }
        if same_text(event_type, "assistant.message_delta") {
            let source = match data.get("delta") {
                Some(delta) => Some(delta),
                None => data.get("content"),
            };
            let delta = match source {
                Some(value) => match value.as_str() {
                    Some(t) => t,
                    None => "",
                },
                None => "",
            };
            assert(delta@ == added_text(event));
            if delta.is_empty() {
                return Forwarding::Tell(events);
            }
            if !self.started {
                self.started = true;
                events.push(ProviderStreamEvent::ProviderOutputStarted);
            }
            events.push(ProviderStreamEvent::TextDelta { text: delta.to_owned() });
            assert(stream_views(events@) =~= told_of(old(self).started, event));
            Forwarding::Tell(events)
        } else if same_text(event_type, "session.idle") || same_text(event_type, "session.error") {
            Forwarding::Stop
        } else {
            Forwarding::Tell(events)
        }
    }
}

/// The host is told that the model has begun to answer once, before the first text, and never
/// where there is no text; then it is told every text that is not empty, in order.
pub proof fn host_is_told_the_answer(events: Seq<SessionEventView>)
    ensures
        ({
            let deltas = answer_texts(events).map_values(|t: Seq<char>| StreamView::TextDelta(t));
            told(false, events) == if deltas.len() == 0 {
                Seq::empty()
            } else {
                seq![StreamView::ProviderOutputStarted] + deltas
            }
        }),
        told(true, events) == answer_texts(events).map_values(
            |t: Seq<char>| StreamView::TextDelta(t),
        ),
    decreases events.len(),
{
    let f = |t: Seq<char>| StreamView::TextDelta(t);
    let deltas = answer_texts(events).map_values(f);
    if events.len() == 0 || ends_stream(events.first()) {
        assert(deltas =~= Seq::empty());
    } else {
        let rest = events.drop_first();
        let added = added_text(events.first());
        host_is_told_the_answer(rest);
        if added.len() > 0 {
            assert(deltas =~= seq![StreamView::TextDelta(added)] + answer_texts(rest).map_values(
                f,
            ));
            assert(told(true, events) =~= deltas);
            assert(told(false, events) =~= seq![StreamView::ProviderOutputStarted] + deltas);
        } else {
            assert(told(true, events) =~= deltas);
            assert(told(false, events) =~= told(false, rest));
        }
    }
}

/// No text that the host is told is empty.
pub proof fn told_texts_are_not_empty(events: Seq<SessionEventView>, i: int)
    requires
        0 <= i < answer_texts(events).len(),
    ensures
        answer_texts(events)[i].len() > 0,
    decreases events.len(),
{
    let rest = events.drop_first();
    if added_text(events.first()).len() > 0 {
        if i > 0 {
            told_texts_are_not_empty(rest, i - 1);
        }
    } else {
        told_texts_are_not_empty(rest, i);
    }
}

/// Nothing that follows the end of a session reaches the host.
pub proof fn nothing_follows_the_end(
    started: bool,
    before: Seq<SessionEventView>,
    end: SessionEventView,
    after: Seq<SessionEventView>,
)
    requires
        ends_stream(end),
    ensures
        told(started, before + seq![end] + after) == told(started, before),
    decreases before.len(),
{
    let whole = before + seq![end] + after;
    if before.len() == 0 {
        assert(whole.first() == end);
    } else {
        assert(whole.first() == before.first());
        assert(whole.drop_first() =~= before.drop_first() + seq![end] + after);
        nothing_follows_the_end(
            started_after(started, before.first()),
            before.drop_first(),
            end,
            after,
        );
    }
}

/// What the host is told of an event of the type `assistant.message_delta`: the text that the
/// event holds as its `delta`, or as its `content` where it has no `delta`, unchanged, and before
/// it that the model has begun to answer, where no text came before. It is told nothing where
/// there is no such text or the text is empty, and nothing of an event of another type.
pub proof fn host_is_told_the_text_of_a_delta(started: bool, event: SessionEventView)
    ensures
        ({
            let delta = event.data.field("delta"@);
            let held = if delta is Some {
                delta
            } else {
                event.data.field("content"@)
            };
            if event.event_type == "assistant.message_delta"@ && held is Some && held->0 is String
                && held->0->String_0.len() > 0 {
                &&& told_of(started, event).len() == if started {
                    1int
                } else {
                    2
                }
                &&& told_of(started, event).last() == StreamView::TextDelta(held->0->String_0)
                &&& !started ==> told_of(started, event).first()
                    == StreamView::ProviderOutputStarted
                &&& started_after(started, event)
            } else {
                &&& told_of(started, event).len() == 0
                &&& started_after(started, event) == started
            }
        }),
        ends_stream(event) <==> event.event_type == "session.idle"@ || event.event_type
            == "session.error"@,
{
}

/// The texts that the host is told, one after another.
pub open spec fn shown(told: Seq<StreamView>) -> Seq<char>
    decreases told.len(),
{
    if told.len() == 0 {
        Seq::empty()
    } else {
        shown(told.drop_last()) + match told.last() {
            StreamView::TextDelta(t) => t,
            StreamView::ProviderOutputStarted => Seq::empty(),
        }
    }
}

proof fn shown_is_split(a: Seq<StreamView>, b: Seq<StreamView>)
    ensures
        shown(a + b) == shown(a) + shown(b),
    decreases b.len(),
{
    if b.len() == 0 {
        assert(a + b =~= a);
        assert(shown(a) + shown(b) =~= shown(a));
    } else {
        shown_is_split(a, b.drop_last());
        assert((a + b).drop_last() =~= a + b.drop_last());
        assert(shown(a + b) =~= shown(a) + shown(b));
    }
}

/// The host shows what the model says: where every event is of the type
/// `assistant.message_delta` and holds a text as its `delta`, the texts that the host is told make
/// up, one after another, the same text as these.
pub proof fn host_shows_what_the_model_says(
    started: bool,
    events: Seq<SessionEventView>,
    said: Seq<Seq<char>>,
)
    requires
        events.len() == said.len(),
        forall|i: int|
            0 <= i < events.len() ==> {
                &&& (#[trigger] events[i]).event_type == "assistant.message_delta"@
                &&& events[i].data.field("delta"@) == Some(JsonView::String(said[i]))
            },
    ensures
        shown(told(started, events)) == said.flatten(),
    decreases events.len(),
{
    reveal_strlit("assistant.message_delta");
    reveal_strlit("session.idle");
    reveal_strlit("session.error");
    if events.len() > 0 {
        let event = events[0];
        let rest = events.drop_first();
        assert("assistant.message_delta"@.len() != "session.idle"@.len());
        assert("assistant.message_delta"@.len() != "session.error"@.len());
        assert forall|i: int| 0 <= i < rest.len() implies {
            &&& (#[trigger] rest[i]).event_type == "assistant.message_delta"@
            &&& rest[i].data.field("delta"@) == Some(JsonView::String(said.drop_first()[i]))
        } by {
            assert(rest[i] == events[i + 1]);
        }
        host_shows_what_the_model_says(
            started_after(started, event),
            rest,
            said.drop_first(),
        );
        shown_is_split(told_of(started, event), told(started_after(started, event), rest));
        let first = told_of(started, event);
        reveal_with_fuel(shown, 3);
        if first.len() == 1 {
            assert(first.drop_last() =~= Seq::empty());
        } else if first.len() == 2 {
            assert(first.drop_last().drop_last() =~= Seq::empty());
        }
        assert(shown(first) =~= said[0]);
        assert(said.flatten() == said.first() + said.drop_first().flatten());
    }
}

/// The events that the host gets have the models that they are told by.
pub proof fn each_stream_event_has_its_model(events: Seq<ProviderStreamEvent>, i: int)
    requires
        0 <= i < events.len(),
    ensures
        stream_views(events).len() == events.len(),
        events[i] is ProviderOutputStarted <==> stream_views(events)[i] is ProviderOutputStarted,
        events[i] is TextDelta ==> stream_views(events)[i] == StreamView::TextDelta(
            events[i]->text@,
        ),
{
}

} // verus!
