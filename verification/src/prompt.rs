//! What the model is told: the system message and the prompt.

use vstd::prelude::*;

use crate::encode;
use crate::encode::to_pretty_text;
use crate::error::TuraError;
use crate::json;
use crate::json::{Json, JsonView};
use crate::text;
use crate::text::{is_blank, join, same_text};

verus! {

/// What every system message says of the host.
pub const BOUNDARY: &'static str =
    "You are the model provider inside Tura. Tura owns orchestration, permissions, filesystem access, command execution, and tool execution. Do not use ambient Copilot CLI tools, config discovery, skills, agents, MCP servers, host Git operations, or host filesystem access. Only call custom tools explicitly supplied by Tura. When you call one or more supplied tools, stop the turn after the host-capture result and do not continue with a synthesized answer.";

/// What a system message says where there are no tools.
pub const NO_TOOLS: &'static str = "No tools are available in this turn; answer with text only.";

/// What a prompt says before the transcript.
pub const TRANSCRIPT_HEADING: &'static str =
    "Continue the canonical conversation below as the assistant. Preserve the meaning of prior assistant tool calls and tool results. Do not quote or explain the JSON transcript.\n\n";

/// The text of a part of a message: what the part holds as its text, else the part itself.
pub open spec fn part_text(part: JsonView) -> Option<Seq<char>> {
    match part.field_text("text"@) {
        Some(t) => Some(t),
        None => part.text(),
    }
}

/// The texts of the parts that have one, in order.
pub open spec fn part_texts(parts: Seq<JsonView>) -> Seq<Seq<char>> {
    parts.filter_map(|part: JsonView| part_text(part))
}

/// A value as text: a string is its own text, a list is the texts of its parts, one on each
/// line, and every other value is written as JSON.
pub open spec fn text_of(value: JsonView) -> Seq<char> {
    match value {
        JsonView::String(s) => s,
        JsonView::Array(parts) => text::joined(part_texts(parts), "\n"@),
        _ => encode::displayed_text(value),
    }
}

/// A message that instructs the model, rather than being a turn of the conversation.
pub open spec fn instructs(message: JsonView) -> bool {
    ||| message.field_text("role"@) == Some("system"@)
    ||| message.field_text("role"@) == Some("developer"@)
}

/// The messages that are turns of the conversation, in order.
pub open spec fn conversation(messages: Seq<JsonView>) -> Seq<JsonView> {
    messages.filter(|message: JsonView| !instructs(message))
}

/// What a message instructs, where it instructs anything.
pub open spec fn instruction(message: JsonView) -> Option<Seq<char>> {
    match message.field("content"@) {
        Some(content) => if instructs(message) && !text::blank(text_of(content)) {
            Some(text_of(content))
        } else {
            None
        },
        None => None,
    }
}

/// What the messages instruct, in order.
pub open spec fn instructions(messages: Seq<JsonView>) -> Seq<Seq<char>> {
    messages.filter_map(|message: JsonView| instruction(message))
}

/// The paragraphs of the system message.
pub open spec fn paragraphs(messages: Seq<JsonView>, has_tools: bool) -> Seq<Seq<char>> {
    let told = instructions(messages).push(BOUNDARY@);
    if has_tools {
        told
    } else {
        told.push(NO_TOOLS@)
    }
}

/// The system message.
pub open spec fn system_text(messages: Seq<JsonView>, has_tools: bool) -> Seq<char> {
    text::joined(paragraphs(messages, has_tools), "\n\n"@)
}

/// Whether a list of tools that may be missing has a tool in it.
pub open spec fn any_tools(tools: Option<&[Json]>) -> bool {
    match tools {
        Some(tools) => tools@.len() > 0,
        None => false,
    }
}

/// The prompt that continues a conversation.
pub open spec fn prompt_text(messages: Seq<JsonView>) -> Seq<char> {
    TRANSCRIPT_HEADING@ + encode::pretty_text(conversation(messages))
}

/// A value as text: a string is its own text, a list is the texts of its parts, one on each
/// line, and every other value is written as JSON.
pub fn value_text(value: &Json) -> (r: String)
    ensures
        r@ == text_of(value@),
{
    match value {
        Json::String(s) => s.clone(),
        Json::Array(parts) => {
            proof {
                json::array_view(*parts);
            }
            let ghost models = json::views(parts@);
            let mut found: Vec<String> = Vec::new();
            let mut i: usize = 0;
            assert(models.take(0) =~= Seq::empty());
            assert(text::texts(found@) =~= Seq::empty());
            while i < parts.len()
                invariant
                    i <= parts.len(),
                    models == json::views(parts@),
                    text::texts(found@) == part_texts(models.take(i as int)),
                decreases parts.len() - i,
            {
                let part = &parts[i];
                let own = match part.get_str("text") {
                    Some(t) => Some(t),
                    None => part.as_str(),
                };
                let ghost before = found@;
                assert(models.take(i + 1).drop_last() =~= models.take(i as int));
                assert(models.take(i + 1).last() == part@);
                if let Some(t) = own {
                    found.push(t.to_owned());
                    assert(text::texts(found@) =~= text::texts(before).push(t@));
                }
                i = i + 1;
            }
            assert(models.take(i as int) =~= models);
            join(&found, "\n")
        },
        _ => value.to_text(),
    }
}

fn is_instruction(message: &Json) -> (r: bool)
    ensures
        r == instructs(message@),
{
    match message.get_str("role") {
        Some(role) => same_text(role, "system") || same_text(role, "developer"),
        None => false,
    }
}

/// The system message: what the messages instruct, then what the host owns, then, where there
/// are no tools, that there are none.
pub fn system_message(messages: &[Json], tools: Option<&[Json]>) -> (r: String)
    ensures
        r@ == system_text(json::views(messages@), any_tools(tools)),
{
    let ghost models = json::views(messages@);
    let mut parts: Vec<String> = Vec::new();
    let mut i: usize = 0;
    assert(models.take(0) =~= Seq::empty());
    assert(text::texts(parts@) =~= Seq::empty());
    while i < messages.len()
        invariant
            i <= messages.len(),
            models == json::views(messages@),
            text::texts(parts@) == instructions(models.take(i as int)),
        decreases messages.len() - i,
    {
        let message = &messages[i];
        let ghost before = parts@;
        assert(models.take(i + 1).drop_last() =~= models.take(i as int));
        assert(models.take(i + 1).last() == message@);
        if is_instruction(message) {
            if let Some(content) = message.get("content") {
                let told = value_text(content);
                if !is_blank(told.as_str()) {
                    parts.push(told);
                    assert(text::texts(parts@) =~= text::texts(before).push(told@));
                }
            }
        }
        i = i + 1;
    }
    assert(models.take(i as int) =~= models);
    let ghost told = parts@;
    parts.push(BOUNDARY.to_owned());
    assert(text::texts(parts@) =~= text::texts(told).push(BOUNDARY@));
    let has_tools = match tools {
        Some(tools) => tools.len() > 0,
        None => false,
    };
    if !has_tools {
        let ghost told = parts@;
        parts.push(NO_TOOLS.to_owned());
        assert(text::texts(parts@) =~= text::texts(told).push(NO_TOOLS@));
    }
    join(&parts, "\n\n")
}

/// The prompt around a transcript that was written, or the error that writing it gave.
pub fn prompt_around(transcript: Result<String, serde_json::Error>) -> (r: Result<
    String,
    TuraError,
>)
    ensures
        match transcript {
            Ok(t) => r is Ok && r->Ok_0@ == TRANSCRIPT_HEADING@ + t@,
            Err(error) => r is Err && r->Err_0 == TuraError::Json(error),
        },
{
    match transcript {
        Ok(t) => {
            let mut prompt = TRANSCRIPT_HEADING.to_owned();
            prompt.append(t.as_str());
            Ok(prompt)
        },
        Err(error) => Err(TuraError::from(error)),
    }
}

/// The prompt that continues a conversation: its heading, then the messages that are turns of
/// the conversation as JSON.
pub fn canonical_prompt(messages: &[Json]) -> (r: Result<String, TuraError>)
    ensures
        r is Ok,
        r->Ok_0@ == prompt_text(json::views(messages@)),
{
    let ghost models = json::views(messages@);
    let ghost turn = |message: JsonView| !instructs(message);
    let mut turns: Vec<&Json> = Vec::new();
    let mut i: usize = 0;
    proof {
        reveal(Seq::filter);
        assert(models.take(0) =~= Seq::empty());
        assert(turns@.map_values(|value: &Json| value@) =~= models.take(0).filter(turn));
    }
    while i < messages.len()
        invariant
            i <= messages.len(),
            models == json::views(messages@),
            turn == (|message: JsonView| !instructs(message)),
            turns@.map_values(|value: &Json| value@) == models.take(i as int).filter(turn),
        decreases messages.len() - i,
    {
        let message = &messages[i];
        let ghost before = turns@;
        proof {
            reveal(Seq::filter);
            assert(models.take(i + 1).drop_last() =~= models.take(i as int));
            assert(models.take(i + 1).last() == message@);
        }
        if !is_instruction(message) {
            turns.push(message);
            assert(turns@.map_values(|value: &Json| value@) =~= before.map_values(
                |value: &Json| value@,
            ).push(message@));
        }
        i = i + 1;
    }
    assert(models.take(i as int) =~= models);
    prompt_around(to_pretty_text(&turns))
}

/// A message that instructs the model leaves no trace in the prompt, wherever it stands.
pub proof fn prompt_excludes_instructions(
    before: Seq<JsonView>,
    message: JsonView,
    after: Seq<JsonView>,
)
    requires
        instructs(message),
    ensures
        prompt_text(before + seq![message] + after) == prompt_text(before + after),
{
    conversation_is_split(before + seq![message], after);
    conversation_is_split(before, seq![message]);
    conversation_is_split(before, after);
    reveal_with_fuel(Seq::filter, 2);
    assert(seq![message].drop_last() =~= Seq::empty());
    assert(conversation(before + seq![message] + after) =~= conversation(before + after));
}

/// A message that is a turn of the conversation, the result of a tool among them, stands in the
/// transcript unchanged, between the turns before it and the turns after it.
pub proof fn prompt_preserves_turns(
    before: Seq<JsonView>,
    message: JsonView,
    after: Seq<JsonView>,
)
    requires
        !instructs(message),
    ensures
        conversation(before + seq![message] + after) == conversation(before) + seq![message]
            + conversation(after),
{
    conversation_is_split(before + seq![message], after);
    conversation_is_split(before, seq![message]);
    reveal_with_fuel(Seq::filter, 2);
    assert(seq![message].drop_last() =~= Seq::empty());
    assert(conversation(seq![message]) =~= seq![message]);
}

/// No message of the transcript instructs the model.
pub proof fn transcript_holds_turns_only(messages: Seq<JsonView>, i: int)
    requires
        0 <= i < conversation(messages).len(),
    ensures
        !instructs(conversation(messages)[i]),
{
    messages.lemma_filter_pred(|message: JsonView| !instructs(message), i);
}

proof fn conversation_is_split(a: Seq<JsonView>, b: Seq<JsonView>)
    ensures
        conversation(a + b) == conversation(a) + conversation(b),
{
    Seq::filter_distributes_over_add(a, b, |message: JsonView| !instructs(message));
}

proof fn instructions_are_split(a: Seq<JsonView>, b: Seq<JsonView>)
    ensures
        instructions(a + b) == instructions(a) + instructions(b),
    decreases b.len(),
{
    if b.len() == 0 {
        assert(a + b =~= a);
        assert(instructions(a) + instructions(b) =~= instructions(a));
    } else {
        instructions_are_split(a, b.drop_last());
        assert((a + b).drop_last() =~= a + b.drop_last());
        assert((a + b).last() == b.last());
        assert(instructions(a + b) =~= instructions(a) + instructions(b));
    }
}

/// A turn of the conversation leaves no trace in the system message, wherever it stands.
pub proof fn system_message_excludes_turns(
    before: Seq<JsonView>,
    message: JsonView,
    after: Seq<JsonView>,
    has_tools: bool,
)
    requires
        !instructs(message),
    ensures
        system_text(before + seq![message] + after, has_tools) == system_text(
            before + after,
            has_tools,
        ),
{
    instructions_are_split(before + seq![message], after);
    instructions_are_split(before, seq![message]);
    instructions_are_split(before, after);
    reveal_with_fuel(Seq::filter_map, 2);
    assert(seq![message].drop_last() =~= Seq::empty());
    assert(instructions(before + seq![message] + after) =~= instructions(before + after));
}

/// Every system message says what the host owns, whatever else it says.
pub proof fn system_message_states_the_boundary(messages: Seq<JsonView>, has_tools: bool)
    ensures
        text::occurs_in(BOUNDARY@, system_text(messages, has_tools)),
{
    let at = instructions(messages).len() as int;
    assert(paragraphs(messages, has_tools)[at] == BOUNDARY@);
    text::joined_holds_each_part(paragraphs(messages, has_tools), "\n\n"@, at);
}

/// Whatever a message instructs is in the system message.
pub proof fn system_message_keeps_instructions(
    messages: Seq<JsonView>,
    has_tools: bool,
    i: int,
)
    requires
        0 <= i < messages.len(),
        instruction(messages[i]) is Some,
    ensures
        text::occurs_in(instruction(messages[i])->0, system_text(messages, has_tools)),
{
    let before = messages.take(i);
    let after = messages.skip(i + 1);
    let told = instruction(messages[i])->0;
    assert(messages =~= before + seq![messages[i]] + after);
    instructions_are_split(before + seq![messages[i]], after);
    instructions_are_split(before, seq![messages[i]]);
    reveal_with_fuel(Seq::filter_map, 2);
    assert(seq![messages[i]].drop_last() =~= Seq::empty());
    assert(instructions(seq![messages[i]]) =~= seq![told]);
    let at = instructions(before).len() as int;
    assert(instructions(messages)[at] == told);
    assert(paragraphs(messages, has_tools)[at] == told);
    text::joined_holds_each_part(paragraphs(messages, has_tools), "\n\n"@, at);
}

/// A system message ends by saying that there are no tools where there are none, and with what
/// the host owns where there are some.
pub proof fn system_message_ends_with(messages: Seq<JsonView>, has_tools: bool)
    ensures
        (if has_tools {
            BOUNDARY@
        } else {
            NO_TOOLS@
        }).is_suffix_of(system_text(messages, has_tools)),
{
    let parts = paragraphs(messages, has_tools);
    let whole = system_text(messages, has_tools);
    assert(whole.subrange(whole.len() - parts.last().len(), whole.len() as int) =~= parts.last());
}

/// The role of a message decides whether it is a turn of the conversation: it is one, and stands
/// in the transcript in its place and unchanged, unless its role is the text `system` or the text
/// `developer`. A message with one of these two is left out.
pub proof fn role_decides_what_is_a_turn(
    before: Seq<JsonView>,
    message: JsonView,
    after: Seq<JsonView>,
)
    ensures
        conversation(Seq::empty()).len() == 0,
        message.field_text("role"@) != Some("system"@) && message.field_text("role"@) != Some(
            "developer"@,
        ) ==> conversation(before + seq![message] + after) == conversation(before) + seq![message]
            + conversation(after),
        message.field_text("role"@) == Some("system"@) || message.field_text("role"@) == Some(
            "developer"@,
        ) ==> conversation(before + seq![message] + after) == conversation(before) + conversation(
            after,
        ),
{
    reveal(Seq::filter);
    if instructs(message) {
        conversation_is_split(before + seq![message], after);
        conversation_is_split(before, seq![message]);
        reveal_with_fuel(Seq::filter, 2);
        assert(seq![message].drop_last() =~= Seq::empty());
        assert(conversation(before) + conversation(seq![message]) =~= conversation(before));
    } else {
        prompt_preserves_turns(before, message, after);
    }
}

/// The prompt of messages none of which has the role `system` or `developer` holds all of them,
/// in order and unchanged, behind the heading.
pub proof fn prompt_holds_every_turn(messages: Seq<JsonView>)
    requires
        forall|i: int|
            0 <= i < messages.len() ==> {
                &&& (#[trigger] messages[i]).field_text("role"@) != Some("system"@)
                &&& messages[i].field_text("role"@) != Some("developer"@)
            },
    ensures
        conversation(messages) == messages,
        prompt_text(messages) == TRANSCRIPT_HEADING@ + encode::pretty_text(messages),
    decreases messages.len(),
{
    if messages.len() > 0 {
        let before = messages.drop_last();
        assert forall|i: int| 0 <= i < before.len() implies {
            &&& (#[trigger] before[i]).field_text("role"@) != Some("system"@)
            &&& before[i].field_text("role"@) != Some("developer"@)
        } by {
            assert(before[i] == messages[i]);
        }
        prompt_holds_every_turn(before);
        role_decides_what_is_a_turn(before, messages.last(), Seq::empty());
        assert(messages[messages.len() - 1] == messages.last());
        assert(before + seq![messages.last()] + Seq::empty() =~= messages);
        assert(before + seq![messages.last()] + conversation(Seq::empty()) =~= messages);
    } else {
        reveal(Seq::filter);
        assert(conversation(messages) =~= messages);
    }
}

/// A message whose role is `system` or `developer`, and whose content has a text that is not
/// blank, adds this text to the system message, as a paragraph of its own before those of the
/// messages behind it. Every other message adds nothing. Behind the last message stands what the
/// host owns, and, where there are no tools, that there are none.
pub proof fn system_message_is_what_the_messages_instruct(
    message: JsonView,
    rest: Seq<JsonView>,
    has_tools: bool,
)
    ensures
        system_text(Seq::empty(), true) == BOUNDARY@,
        system_text(Seq::empty(), false) == BOUNDARY@ + "\n\n"@ + NO_TOOLS@,
        ({
            let role = message.field_text("role"@);
            let content = message.field("content"@);
            if (role == Some("system"@) || role == Some("developer"@)) && content is Some
                && !text::blank(text_of(content->0)) {
                system_text(seq![message] + rest, has_tools) == text_of(content->0) + "\n\n"@
                    + system_text(rest, has_tools)
            } else {
                system_text(seq![message] + rest, has_tools) == system_text(rest, has_tools)
            }
        }),
{
    reveal_with_fuel(text::joined, 3);
    let none = Seq::<JsonView>::empty();
    assert(instructions(none) =~= Seq::empty());
    assert(paragraphs(none, true) =~= seq![BOUNDARY@]);
    assert(paragraphs(none, false) =~= seq![BOUNDARY@, NO_TOOLS@]);
    assert(paragraphs(none, false).drop_last() =~= seq![BOUNDARY@]);
    instructions_are_split(seq![message], rest);
    reveal_with_fuel(Seq::filter_map, 2);
    assert(seq![message].drop_last() =~= Seq::empty());
    let whole = paragraphs(seq![message] + rest, has_tools);
    match instruction(message) {
        Some(told) => {
            assert(instructions(seq![message]) =~= seq![told]);
            assert(whole =~= seq![told] + paragraphs(rest, has_tools));
            text::joined_begins_with_its_first_part(
                told,
                paragraphs(rest, has_tools),
                "\n\n"@,
            );
        },
        None => {
            assert(instructions(seq![message]) =~= Seq::empty());
            assert(whole =~= paragraphs(rest, has_tools));
        },
    }
}

/// What a message of the role `system` or `developer` says in its content is in the system
/// message, wherever the message stands and whatever the shape of the content, unless it is blank.
pub proof fn system_message_holds_every_instruction(
    messages: Seq<JsonView>,
    has_tools: bool,
    i: int,
    content: JsonView,
)
    requires
        0 <= i < messages.len(),
        messages[i].field_text("role"@) == Some("system"@) || messages[i].field_text("role"@)
            == Some("developer"@),
        messages[i].field("content"@) == Some(content),
        !text::blank(text_of(content)),
    ensures
        text::occurs_in(text_of(content), system_text(messages, has_tools)),
{
    system_message_keeps_instructions(messages, has_tools, i);
}

proof fn part_texts_are_split(a: Seq<JsonView>, b: Seq<JsonView>)
    ensures
        part_texts(a + b) == part_texts(a) + part_texts(b),
    decreases b.len(),
{
    if b.len() == 0 {
        assert(a + b =~= a);
        assert(part_texts(a) + part_texts(b) =~= part_texts(a));
    } else {
        part_texts_are_split(a, b.drop_last());
        assert((a + b).drop_last() =~= a + b.drop_last());
        assert((a + b).last() == b.last());
        assert(part_texts(a + b) =~= part_texts(a) + part_texts(b));
    }
}

proof fn parts_with_texts_have_texts(parts: Seq<JsonView>)
    ensures
        part_texts(parts).len() > 0 <==> exists|i: int|
            0 <= i < parts.len() && part_text(#[trigger] parts[i]) is Some,
    decreases parts.len(),
{
    if parts.len() > 0 {
        let before = parts.drop_last();
        parts_with_texts_have_texts(before);
        if part_text(parts.last()) is Some {
            assert(part_text(parts[parts.len() - 1]) is Some);
        } else {
            if part_texts(before).len() > 0 {
                let i = choose|i: int|
                    0 <= i < before.len() && part_text(#[trigger] before[i]) is Some;
                assert(part_text(parts[i]) is Some);
            }
            assert forall|i: int|
                0 <= i < parts.len() && part_text(#[trigger] parts[i]) is Some implies part_texts(
                parts,
            ).len() > 0 by {
                assert(before[i] == parts[i]);
            }
        }
    }
}

/// A string is its own text, unchanged. A list is the texts of its parts, each on lines of its
/// own: the text that an object holds as its `text`, or the string that the part is. A part
/// without a text leaves no line. Any other value is written as JSON.
pub proof fn text_of_a_list_is_that_of_its_parts(
    value: JsonView,
    part: JsonView,
    rest: Seq<JsonView>,
)
    ensures
        value is String ==> text_of(value) == value->String_0,
        !(value is String) && !(value is Array) ==> text_of(value) == encode::displayed_text(
            value,
        ),
        text_of(JsonView::Array(Seq::empty())).len() == 0,
        ({
            let whole = text_of(JsonView::Array(seq![part] + rest));
            let others = text_of(JsonView::Array(rest));
            let more = exists|i: int|
                0 <= i < rest.len() && ((#[trigger] rest[i]) is String || rest[i].field_text(
                    "text"@,
                ) is Some);
            let own = if part is String {
                Some(part->String_0)
            } else {
                part.field_text("text"@)
            };
            &&& own is None ==> whole == others
            &&& own is Some && more ==> whole == own->0 + "\n"@ + others
            &&& own is Some && !more ==> whole == own->0
        }),
{
    let more = exists|i: int|
        0 <= i < rest.len() && ((#[trigger] rest[i]) is String || rest[i].field_text("text"@)
            is Some);
    part_texts_are_split(seq![part], rest);
    parts_with_texts_have_texts(rest);
    if more {
        let i = choose|i: int|
            0 <= i < rest.len() && ((#[trigger] rest[i]) is String || rest[i].field_text("text"@)
                is Some);
        assert(part_text(rest[i]) is Some);
    } else {
        assert forall|i: int| 0 <= i < rest.len() implies part_text(#[trigger] rest[i]) is None by {
            assert(!(rest[i] is String));
        }
    }
    reveal_with_fuel(Seq::filter_map, 2);
    assert(seq![part].drop_last() =~= Seq::empty());
    match part_text(part) {
        Some(own) => {
            assert(part_texts(seq![part]) =~= seq![own]);
            text::joined_begins_with_its_first_part(own, part_texts(rest), "\n"@);
        },
        None => {
            assert(part_texts(seq![part]) =~= Seq::empty());
            assert(part_texts(seq![part] + rest) =~= part_texts(rest));
        },
    }
}

/// There are tools where a list is given and it has a tool in it.
pub proof fn tools_are_those_of_the_list(tools: &[Json])
    ensures
        any_tools(Some(tools)) <==> tools@.len() > 0,
        !any_tools(None),
{
}

} // verus!
