//! The tools that the host offers, and the calls of them that the model makes.

use vstd::prelude::*;

use crate::error;
use crate::error::{sdk_error, TuraError, TuraErrorView};
use crate::json;
use crate::json::{Json, JsonObject, JsonView};
use crate::text;
use crate::text::is_blank;

verus! {

/// `github_copilot_sdk::ToolSet`, the list of the tools that a session may use.
#[verifier::external_type_specification]
#[verifier::external_body]
pub struct ExToolSet(github_copilot_sdk::ToolSet);

/// The tool patterns that a `ToolSet` holds, in order.
pub uninterp spec fn tool_patterns(set: github_copilot_sdk::ToolSet) -> Seq<Seq<char>>;

/// A name that the SDK takes for a tool: the wildcard, or ASCII letters, digits, `_` and `-`.
pub open spec fn valid_tool_name(name: Seq<char>) -> bool {
    ||| name == "*"@
    ||| name.len() > 0 && forall|i: int| 0 <= i < name.len() ==> tool_name_char(#[trigger] name[i])
}

/// A character that the SDK takes in the name of a tool.
pub open spec fn tool_name_char(c: char) -> bool {
    ||| 'a' <= c <= 'z'
    ||| 'A' <= c <= 'Z'
    ||| '0' <= c <= '9'
    ||| c == '_'
    ||| c == '-'
}

/// The pattern of a tool that the host supplies.
pub open spec fn custom_pattern(name: Seq<char>) -> Seq<char> {
    "custom:"@ + name
}

/// What the SDK says of a name that it does not take.
pub open spec fn invalid_name_text(name: Seq<char>) -> Seq<char> {
    "Invalid custom tool name '"@ + name
        + "': tool names must match /^[a-zA-Z0-9_-]+$/ or be the wildcard '*'."@
}

/// `ToolSet::new` makes a set without patterns.
#[verifier::external_body]
fn empty_tool_set() -> (r: github_copilot_sdk::ToolSet)
    ensures
        tool_patterns(r) == Seq::<Seq<char>>::empty(),
{
    github_copilot_sdk::ToolSet::new()
}

/// `ToolSet::add_custom` puts the pattern of a tool behind the patterns of the set where it takes
/// the tool's name, and else fails with a message that says so.
#[verifier::external_body]
fn add_custom(set: github_copilot_sdk::ToolSet, name: &str) -> (r: Result<
    github_copilot_sdk::ToolSet,
    github_copilot_sdk::Error,
>)
    ensures
        r is Ok <==> valid_tool_name(name@),
        r is Ok ==> tool_patterns(r->Ok_0) == tool_patterns(set).push(custom_pattern(name@)),
        r is Err ==> error::sdk_message(r->Err_0) == Some(invalid_name_text(name@)),
{
    set.add_custom(name)
}

/// `ToolSet::into_vec` gives the patterns out, in order.
#[verifier::external_body]
fn patterns_of(set: github_copilot_sdk::ToolSet) -> (r: Vec<String>)
    ensures
        text::texts(r@) == tool_patterns(set),
{
    set.into_vec()
}

/// A tool as it is declared to the SDK.
#[derive(Debug)]
pub struct ToolDeclaration {
    pub name: String,
    pub description: String,
    pub parameters: Json,
    pub skip_permission: bool,
}

/// The model of [`ToolDeclaration`].
pub struct ToolView {
    pub name: Seq<char>,
    pub description: Seq<char>,
    pub parameters: JsonView,
    pub skip_permission: bool,
}

impl View for ToolDeclaration {
    type V = ToolView;

    open spec fn view(&self) -> ToolView {
        ToolView {
            name: self.name@,
            description: self.description@,
            parameters: self.parameters@,
            skip_permission: self.skip_permission,
        }
    }
}

/// The models of a list of declarations.
pub open spec fn tool_views(tools: Seq<ToolDeclaration>) -> Seq<ToolView> {
    tools.map_values(|tool: ToolDeclaration| tool@)
}

/// What becomes of a configured tool.
pub enum ToolOutcome {
    /// It has no name, and is passed over.
    Skipped,
    /// It is declared.
    Declared(ToolView),
    /// It is at fault, and so is the request.
    Refused(TuraErrorView),
}

/// The parameters of a tool that has none.
pub open spec fn no_parameters() -> JsonView {
    JsonView::Object(
        seq![
            ("type"@, JsonView::String("object"@)),
            ("properties"@, JsonView::Object(Seq::empty())),
        ],
    )
}

/// Where a configured tool is described: under its `function`, else in itself.
pub open spec fn description_site(configured: JsonView) -> JsonView {
    match configured.field("function"@) {
        Some(function) => function,
        None => configured,
    }
}

/// The error for a tool whose parameters are no object.
pub open spec fn parameters_refused(name: Seq<char>) -> TuraErrorView {
    TuraErrorView::Validation {
        message: "GitHub Copilot tool '"@ + name + "' parameters must be a JSON object"@,
    }
}

/// The error for a tool whose name the SDK does not take.
pub open spec fn name_refused(name: Seq<char>) -> TuraErrorView {
    error::provider_failure("register Copilot SDK tool"@, invalid_name_text(name))
}

/// What becomes of a configured tool.
pub open spec fn outcome(configured: JsonView) -> ToolOutcome {
    let function = description_site(configured);
    match function.field_text("name"@) {
        Some(name) => {
            let description = match function.field_text("description"@) {
                Some(d) => d,
                None => Seq::empty(),
            };
            let parameters = match function.field("parameters"@) {
                Some(p) => p,
                None => no_parameters(),
            };
            if text::blank(name) {
                ToolOutcome::Skipped
            } else if !(parameters is Object) {
                ToolOutcome::Refused(parameters_refused(name))
            } else if !valid_tool_name(name) {
                ToolOutcome::Refused(name_refused(name))
            } else {
                ToolOutcome::Declared(
                    ToolView { name, description, parameters, skip_permission: true },
                )
            }
        },
        None => ToolOutcome::Skipped,
    }
}

/// The declaration of a configured tool, where it is declared.
pub open spec fn declaration(configured: JsonView) -> Option<ToolView> {
    match outcome(configured) {
        ToolOutcome::Declared(tool) => Some(tool),
        _ => None,
    }
}

/// The tools that are declared, in order.
pub open spec fn declarations(configured: Seq<JsonView>) -> Seq<ToolView> {
    configured.filter_map(|tool: JsonView| declaration(tool))
}

/// The error of the first tool that is at fault.
pub open spec fn first_refusal(configured: Seq<JsonView>) -> Option<TuraErrorView>
    decreases configured.len(),
{
    if configured.len() == 0 {
        None
    } else {
        match outcome(configured.first()) {
            ToolOutcome::Refused(error) => Some(error),
            _ => first_refusal(configured.drop_first()),
        }
    }
}

/// The patterns of a list of tools.
pub open spec fn custom_patterns(tools: Seq<ToolView>) -> Seq<Seq<char>> {
    tools.map_values(|tool: ToolView| custom_pattern(tool.name))
}

/// The models of a list of tools that may be missing.
pub open spec fn configured_tools(tools: Option<&[Json]>) -> Seq<JsonView> {
    match tools {
        Some(tools) => json::views(tools@),
        None => Seq::empty(),
    }
}

fn default_parameters() -> (r: Json)
    ensures
        r@ == no_parameters(),
{
    proof {
        reveal_strlit("type");
        reveal_strlit("properties");
    }
    let empty = JsonObject::new();
    let object = JsonObject::new().with("type", Json::String("object".to_owned())).with(
        "properties",
        Json::Object(empty),
    );
    assert("type"@.len() != "properties"@.len());
    assert(object@ =~= no_parameters()->Object_0);
    Json::Object(object)
}

fn parameters_error(name: &str) -> (r: TuraError)
    ensures
        r@ == parameters_refused(name@),
{
    let mut message = "GitHub Copilot tool '".to_owned();
    message.append(name);
    message.append("' parameters must be a JSON object");
    TuraError::Validation { message }
}

/// The declarations of the configured tools that have a name, and the patterns by which the
/// session may use them.
pub fn sdk_tools(configured: Option<&[Json]>) -> (r: Result<
    (Vec<ToolDeclaration>, Vec<String>),
    TuraError,
>)
    ensures
        match r {
            Ok((tools, available)) => {
                &&& first_refusal(configured_tools(configured)) is None
                &&& tool_views(tools@) == declarations(configured_tools(configured))
                &&& text::texts(available@) == custom_patterns(tool_views(tools@))
            },
            Err(error) => first_refusal(configured_tools(configured)) == Some(error@),
        },
{
    let mut tools: Vec<ToolDeclaration> = Vec::new();
    let mut available = empty_tool_set();
    assert(tool_views(tools@) =~= Seq::empty());
    assert(custom_patterns(Seq::empty()) =~= Seq::empty());
    if let Some(list) = configured {
        let ghost models = json::views(list@);
        let mut i: usize = 0;
        assert(models.take(0) =~= Seq::empty());
        assert(models.skip(0) =~= models);
        while i < list.len()
            invariant
                i <= list.len(),
                configured == Some(list),
                models == json::views(list@),
                models == configured_tools(configured),
                first_refusal(models) == first_refusal(models.skip(i as int)),
                tool_views(tools@) == declarations(models.take(i as int)),
                tool_patterns(available) == custom_patterns(tool_views(tools@)),
            decreases list.len() - i,
        {
            let item = &list[i];
            let ghost before = tool_views(tools@);
            proof {
                assert(models.skip(i as int).first() == item@);
                assert(models.skip(i as int).drop_first() =~= models.skip(i + 1));
                assert(models.take(i + 1).drop_last() =~= models.take(i as int));
                assert(models.take(i + 1).last() == item@);
            }
            i = i + 1;
            let function = match item.get("function") {
                Some(function) => function,
                None => item,
            };
            let name = match function.get_str("name") {
                Some(name) => name,
                None => continue,
            };
            if is_blank(name) {
                continue ;
            }
            let description = match function.get_str("description") {
                Some(description) => description,
                None => "",
            };
            let parameters = match function.get("parameters") {
                Some(parameters) => parameters.clone(),
                None => default_parameters(),
            };
            if !parameters.is_object() {
                return Err(parameters_error(name));
            }
            available =
            match add_custom(available, name) {
                Ok(set) => set,
                Err(error) => {
                    return Err(sdk_error("register Copilot SDK tool", error));
                },
            };
            proof {
                reveal_strlit("");
                assert(""@ =~= Seq::empty());
            }
            let tool = ToolDeclaration {
                name: name.to_owned(),
                description: description.to_owned(),
                parameters,
                skip_permission: true,
            };
            let ghost model = tool@;
            tools.push(tool);
            proof {
                assert(declaration(item@) == Some(model));
                assert(tool_views(tools@) =~= before.push(model));
                assert(declarations(models.take(i as int)) =~= before.push(model));
                assert(custom_patterns(before.push(model)) =~= custom_patterns(before).push(
                    custom_pattern(model.name),
                ));
            }
        }
        assert(models.take(i as int) =~= models);
        assert(models.skip(i as int) =~= Seq::empty());
    }
    Ok((tools, patterns_of(available)))
}

/// Every declared tool is one that the SDK takes: it has a name that is not blank and that the
/// SDK accepts, its parameters are an object, and it asks the SDK for no permission of its own.
pub proof fn declared_tools_are_accepted(configured: Seq<JsonView>, i: int)
    requires
        0 <= i < declarations(configured).len(),
    ensures
        ({
            let tool = declarations(configured)[i];
            &&& !text::blank(tool.name)
            &&& valid_tool_name(tool.name)
            &&& tool.parameters is Object
            &&& tool.skip_permission
        }),
    decreases configured.len(),
{
    if configured.len() > 0 {
        let before = configured.drop_last();
        if i < declarations(before).len() {
            declared_tools_are_accepted(before, i);
            assert(declarations(configured)[i] == declarations(before)[i]);
        }
    }
}

/// A tool is described alike in itself and under a `function`.
pub proof fn bare_and_wrapped_tools_agree(wrapped: JsonView, bare: JsonView)
    requires
        wrapped.field("function"@) == Some(bare),
        bare.field("function"@) is None,
    ensures
        outcome(wrapped) == outcome(bare),
{
}

/// The request is refused exactly where one of its tools is at fault.
pub proof fn refused_iff_a_tool_is_at_fault(configured: Seq<JsonView>)
    ensures
        first_refusal(configured) is Some <==> exists|i: int|
            0 <= i < configured.len() && outcome(#[trigger] configured[i]) is Refused,
    decreases configured.len(),
{
    if configured.len() > 0 {
        let rest = configured.drop_first();
        refused_iff_a_tool_is_at_fault(rest);
        if outcome(configured[0]) is Refused {
        } else {
            assert forall|i: int|
                0 <= i < configured.len() && outcome(
                    #[trigger] configured[i],
                ) is Refused implies first_refusal(configured) is Some by {
                assert(rest[i - 1] == configured[i]);
            }
            if first_refusal(rest) is Some {
                let i = choose|i: int|
                    0 <= i < rest.len() && outcome(#[trigger] rest[i]) is Refused;
                assert(configured[i + 1] == rest[i]);
            }
        }
    }
}

/// What the model is told when it calls a tool.
pub const CAPTURE_REPLY: &'static str =
    "The host application captured this tool request. Stop this turn and wait for the host to execute it.";

/// A call of a tool that the model made, kept for the host to carry out.
#[derive(Debug)]
pub struct CapturedToolCall {
    pub id: String,
    pub name: String,
    pub arguments: Json,
}

/// The model of [`CapturedToolCall`].
pub struct CallView {
    pub id: Seq<char>,
    pub name: Seq<char>,
    pub arguments: JsonView,
}

impl View for CapturedToolCall {
    type V = CallView;

    open spec fn view(&self) -> CallView {
        CallView { id: self.id@, name: self.name@, arguments: self.arguments@ }
    }
}

/// The models of a list of calls.
pub open spec fn call_views(calls: Seq<CapturedToolCall>) -> Seq<CallView> {
    calls.map_values(|call: CapturedToolCall| call@)
}

/// A digit of a lower-case hexadecimal number.
pub open spec fn lower_hex_digit(c: char) -> bool {
    '0' <= c <= '9' || 'a' <= c <= 'f'
}

/// The identifier of a call: a random UUID, as 32 hexadecimal digits.
pub open spec fn call_id(id: Seq<char>) -> bool {
    &&& id.len() == 32
    &&& forall|i: int| 0 <= i < id.len() ==> lower_hex_digit(#[trigger] id[i])
    &&& id[12] == '4'
    &&& id[16] == '8' || id[16] == '9' || id[16] == 'a' || id[16] == 'b'
}

/// `Uuid::new_v4` of `uuid`, shown by `Uuid::simple`: 32 lower-case hexadecimal digits, of which
/// one tells that the UUID is random and one its layout. The others are left to chance.
#[verifier::external_body]
fn new_call_id() -> (r: String)
    ensures
        call_id(r@),
{
    uuid::Uuid::new_v4().simple().to_string()
}

/// Keeps a call of a tool, under an identifier of its own, and gives what the model is told.
pub fn capture(captured: &mut Vec<CapturedToolCall>, name: &str, arguments: Json) -> (r:
    &'static str)
    ensures
        exists|id: Seq<char>| #[trigger]
            call_id(id) && call_views(final(captured)@) == call_views(old(captured)@).push(
                CallView { id, name: name@, arguments: arguments@ },
            ),
        r@ == CAPTURE_REPLY@,
{
    let id = new_call_id();
    keep_call(captured, id, name, arguments)
}

/// Keeps a call of a tool under a given identifier, and gives what the model is told.
pub fn keep_call(
    captured: &mut Vec<CapturedToolCall>,
    id: String,
    name: &str,
    arguments: Json,
) -> (r: &'static str)
    ensures
        call_views(final(captured)@) == call_views(old(captured)@).push(
            CallView { id: id@, name: name@, arguments: arguments@ },
        ),
        r@ == CAPTURE_REPLY@,
{
    captured.push(CapturedToolCall { id, name: name.to_owned(), arguments });
    assert(call_views(captured@) =~= call_views(old(captured)@).push(
        CallView { id: id@, name: name@, arguments: arguments@ },
    ));
    CAPTURE_REPLY
}

proof fn declarations_are_split(a: Seq<JsonView>, b: Seq<JsonView>)
    ensures
        declarations(a + b) == declarations(a) + declarations(b),
    decreases b.len(),
{
    if b.len() == 0 {
        assert(a + b =~= a);
        assert(declarations(a) + declarations(b) =~= declarations(a));
    } else {
        declarations_are_split(a, b.drop_last());
        assert((a + b).drop_last() =~= a + b.drop_last());
        assert((a + b).last() == b.last());
        assert(declarations(a + b) =~= declarations(a) + declarations(b));
    }
}

/// A name that the SDK takes is the wildcard, or at least one ASCII letter, digit, `_` or `-` and
/// nothing else.
pub proof fn names_that_the_sdk_takes(name: Seq<char>)
    ensures
        valid_tool_name(name) <==> name == "*"@ || name.len() > 0 && forall|i: int|
            0 <= i < name.len() ==> {
                ||| 'a' <= #[trigger] name[i] <= 'z'
                ||| 'A' <= name[i] <= 'Z'
                ||| '0' <= name[i] <= '9'
                ||| name[i] == '_'
                ||| name[i] == '-'
            },
{
    if name.len() > 0 && forall|i: int|
        0 <= i < name.len() ==> {
            ||| 'a' <= #[trigger] name[i] <= 'z'
            ||| 'A' <= name[i] <= 'Z'
            ||| '0' <= name[i] <= '9'
            ||| name[i] == '_'
            ||| name[i] == '-'
        } {
        assert forall|i: int| 0 <= i < name.len() implies tool_name_char(#[trigger] name[i]) by {}
    }
}

/// A tool is declared as it is configured. Where a configured tool is described, under its
/// `function` or in itself, stand its name and what else is known of it. With a name that the SDK
/// takes, and parameters that are an object or missing, it is declared in its place among the
/// others: under that name, with the description and the parameters that stand there, unchanged.
/// Only where there are no parameters is it declared with an object without properties, and only
/// where there is no text as its description with an empty one. It is no fault of the request.
pub proof fn tool_is_declared_as_configured(
    before: Seq<JsonView>,
    configured: JsonView,
    after: Seq<JsonView>,
    site: JsonView,
    name: Seq<char>,
)
    requires
        configured.field("function"@) == Some(site) || configured.field("function"@) is None && site
            == configured,
        site.field_text("name"@) == Some(name),
        !text::blank(name),
        valid_tool_name(name),
        site.field("parameters"@) is Some ==> site.field("parameters"@)->0 is Object,
    ensures
        ({
            let at = declarations(before).len() as int;
            let all = declarations(before + seq![configured] + after);
            let tool = all[at];
            &&& all == declarations(before) + seq![tool] + declarations(after)
            &&& tool.name == name
            &&& site.field("parameters"@) is Some ==> tool.parameters == site.field(
                "parameters"@,
            )->0
            &&& site.field("parameters"@) is None ==> {
                &&& tool.parameters is Object
                &&& tool.parameters->Object_0.len() == 2
                &&& tool.parameters->Object_0[0] == ("type"@, JsonView::String("object"@))
                &&& tool.parameters->Object_0[1].0 == "properties"@
                &&& tool.parameters->Object_0[1].1 is Object
                &&& tool.parameters->Object_0[1].1->Object_0.len() == 0
            }
            &&& site.field_text("description"@) is Some ==> tool.description == site.field_text(
                "description"@,
            )->0
            &&& site.field_text("description"@) is None ==> tool.description.len() == 0
            &&& tool.skip_permission
        }),
        first_refusal(seq![configured] + after) == first_refusal(after),
{
    declarations_are_split(before + seq![configured], after);
    declarations_are_split(before, seq![configured]);
    reveal_with_fuel(Seq::filter_map, 2);
    assert(seq![configured].drop_last() =~= Seq::empty());
    let tool = declaration(configured)->0;
    assert(declarations(seq![configured]) =~= seq![tool]);
    let all = declarations(before + seq![configured] + after);
    assert(all[declarations(before).len() as int] == tool);
    assert((seq![configured] + after).drop_first() =~= after);
}

/// A configured tool that has no text as its name, or a blank one, is passed over: the others are
/// declared as if it were not there, and it is no fault of the request.
pub proof fn nameless_tool_is_passed_over(
    before: Seq<JsonView>,
    configured: JsonView,
    after: Seq<JsonView>,
    site: JsonView,
)
    requires
        configured.field("function"@) == Some(site) || configured.field("function"@) is None && site
            == configured,
        site.field_text("name"@) is Some ==> text::blank(site.field_text("name"@)->0),
    ensures
        declarations(Seq::empty()).len() == 0,
        first_refusal(Seq::empty()) is None,
        declarations(before + seq![configured] + after) == declarations(before + after),
        first_refusal(seq![configured] + after) == first_refusal(after),
{
    declarations_are_split(before + seq![configured], after);
    declarations_are_split(before, seq![configured]);
    declarations_are_split(before, after);
    reveal_with_fuel(Seq::filter_map, 2);
    assert(seq![configured].drop_last() =~= Seq::empty());
    assert(declarations(seq![configured]) =~= Seq::empty());
    assert(declarations(before) + declarations(seq![configured]) =~= declarations(before));
    assert((seq![configured] + after).drop_first() =~= after);
}

/// A configured tool with a name is a fault of the request where its parameters are no object, and
/// else where the SDK does not take its name. The error names the tool, and is the one that the
/// request is refused with where no tool before it is at fault.
pub proof fn faulty_tool_is_refused(
    configured: JsonView,
    after: Seq<JsonView>,
    site: JsonView,
    name: Seq<char>,
)
    requires
        configured.field("function"@) == Some(site) || configured.field("function"@) is None && site
            == configured,
        site.field_text("name"@) == Some(name),
        !text::blank(name),
    ensures
        ({
            let refusal = first_refusal(seq![configured] + after);
            let parameters = site.field("parameters"@);
            &&& parameters is Some && !(parameters->0 is Object) ==> refusal == Some(
                TuraErrorView::Validation {
                    message: "GitHub Copilot tool '"@ + name
                        + "' parameters must be a JSON object"@,
                },
            )
            &&& (parameters is Some ==> parameters->0 is Object) && !valid_tool_name(name)
                ==> refusal == Some(
                TuraErrorView::ProviderRequest {
                    provider: "github-copilot"@,
                    message: "register Copilot SDK tool"@ + ": "@ + ("Invalid custom tool name '"@
                        + name
                        + "': tool names must match /^[a-zA-Z0-9_-]+$/ or be the wildcard '*'."@),
                },
            )
        }),
{
    assert((seq![configured] + after).drop_first() =~= after);
}

/// Every declared tool may be used, each by its own pattern, in the order of the tools.
pub proof fn each_tool_has_its_pattern(tools: Seq<ToolView>, i: int)
    requires
        0 <= i < tools.len(),
    ensures
        custom_patterns(tools).len() == tools.len(),
        custom_patterns(tools)[i] == "custom:"@ + tools[i].name,
{
}

/// A list of tools that is missing is one without tools; every other list is taken whole.
pub proof fn configured_tools_are_those_of_the_list(tools: &[Json])
    ensures
        configured_tools(None).len() == 0,
        configured_tools(Some(tools)).len() == tools@.len(),
        forall|i: int|
            0 <= i < tools@.len() ==> (#[trigger] configured_tools(Some(tools))[i]) == tools@[i]@,
{
}

/// The models of declared tools: one for each, in order, with all that it declares.
pub proof fn each_declaration_has_its_model(tools: Seq<ToolDeclaration>, i: int)
    requires
        0 <= i < tools.len(),
    ensures
        tool_views(tools).len() == tools.len(),
        tool_views(tools)[i].name == tools[i].name@,
        tool_views(tools)[i].description == tools[i].description@,
        tool_views(tools)[i].parameters == tools[i].parameters@,
        tool_views(tools)[i].skip_permission == tools[i].skip_permission,
{
}

/// The models of captured calls: one for each, in order, with all that was captured.
pub proof fn each_call_has_its_model(calls: Seq<CapturedToolCall>, i: int)
    requires
        0 <= i < calls.len(),
    ensures
        call_views(calls).len() == calls.len(),
        call_views(calls)[i].id == calls[i].id@,
        call_views(calls)[i].name == calls[i].name@,
        call_views(calls)[i].arguments == calls[i].arguments@,
{
}

} // verus!
