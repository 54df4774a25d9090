//! What a call asks of the SDK: how the client is started and how the session is set up.

use vstd::prelude::*;

use crate::catalog::TOKEN_ENV;
use crate::json;
use crate::json::{Json, JsonView};
use crate::prompt;
use crate::prompt::system_message;
use crate::text;
use crate::text::{is_blank, same_text_ignoring_ascii_case, trim};
use crate::tools;
use crate::tools::{ToolDeclaration, ToolView};

verus! {

/// What a call may choose.
#[derive(Debug)]
pub struct CallOptions {
    pub tools: Option<Vec<Json>>,
    pub reasoning_effort: Option<String>,
    pub stream: Option<bool>,
}

/// A call to the provider.
pub struct CallRequest {
    pub model: String,
    /// The token of the user's account; blank where the SDK is to find a login by itself.
    pub access_token: String,
    pub messages: Vec<Json>,
    pub options: CallOptions,
    /// Whether the host listens while the model answers.
    pub has_stream_sink: bool,
    /// How long the host waits for the answer.
    pub total_timeout_ms: u64,
}

/// The model of [`CallRequest`]. A list of tools that is missing is one without tools.
pub struct RequestView {
    pub model: Seq<char>,
    pub access_token: Seq<char>,
    pub messages: Seq<JsonView>,
    pub tools: Seq<JsonView>,
    pub reasoning_effort: Option<Seq<char>>,
    pub stream: Option<bool>,
    pub has_stream_sink: bool,
    pub total_timeout_ms: u64,
}

impl View for CallRequest {
    type V = RequestView;

    open spec fn view(&self) -> RequestView {
        RequestView {
            model: self.model@,
            access_token: self.access_token@,
            messages: json::views(self.messages@),
            tools: match self.options.tools {
                Some(tools) => json::views(tools@),
                None => Seq::empty(),
            },
            reasoning_effort: text::optional_text(self.options.reasoning_effort),
            stream: self.options.stream,
            has_stream_sink: self.has_stream_sink,
            total_timeout_ms: self.total_timeout_ms,
        }
    }
}

impl CallRequest {
    /// The tools of the call.
    pub fn tools(&self) -> (r: Option<&[Json]>)
        ensures
            tools::configured_tools(r) == self@.tools,
            prompt::any_tools(r) == (self@.tools.len() > 0),
    {
        match &self.options.tools {
            Some(tools) => Some(tools.as_slice()),
            None => None,
        }
    }
}

/// How the client of the SDK is started.
pub struct ClientPlan {
    /// Whether the client leaves out everything that it is not asked for.
    pub empty_mode: bool,
    pub use_logged_in_user: bool,
    /// The variables that are taken out of the client's environment.
    pub env_remove: Vec<String>,
    pub github_token: Option<String>,
}

/// The model of [`ClientPlan`].
pub struct ClientPlanView {
    pub empty_mode: bool,
    pub use_logged_in_user: bool,
    pub env_remove: Seq<Seq<char>>,
    pub github_token: Option<Seq<char>>,
}

impl View for ClientPlan {
    type V = ClientPlanView;

    open spec fn view(&self) -> ClientPlanView {
        ClientPlanView {
            empty_mode: self.empty_mode,
            use_logged_in_user: self.use_logged_in_user,
            env_remove: text::texts(self.env_remove@),
            github_token: text::optional_text(self.github_token),
        }
    }
}

/// How the client is started for a token. With a blank token it looks for a login by itself, and
/// does not see the variable that stands for one.
pub open spec fn client_setup(access_token: Seq<char>) -> ClientPlanView {
    if text::blank(access_token) {
        ClientPlanView {
            empty_mode: true,
            use_logged_in_user: true,
            env_remove: seq![TOKEN_ENV@],
            github_token: None,
        }
    } else {
        ClientPlanView {
            empty_mode: true,
            use_logged_in_user: false,
            env_remove: Seq::empty(),
            github_token: Some(access_token),
        }
    }
}

/// How the client is started for a token.
pub fn client_plan(access_token: &str) -> (r: ClientPlan)
    ensures
        r@ == client_setup(access_token@),
{
    let signed_out = is_blank(access_token);
    let mut env_remove: Vec<String> = Vec::new();
    let mut github_token: Option<String> = None;
    if signed_out {
        env_remove.push(TOKEN_ENV.to_owned());
        assert(text::texts(env_remove@) =~= seq![TOKEN_ENV@]);
    } else {
        github_token = Some(access_token.to_owned());
        assert(text::texts(env_remove@) =~= Seq::empty());
    }
    ClientPlan { empty_mode: true, use_logged_in_user: signed_out, env_remove, github_token }
}

/// How the session is set up.
#[derive(Debug)]
pub struct SessionPlan {
    pub client_name: String,
    pub streaming: bool,
    /// Whether every permission that the session asks for is denied.
    pub deny_all_permissions: bool,
    pub enable_config_discovery: bool,
    pub enable_host_git_operations: bool,
    pub enable_skills: bool,
    pub enable_session_store: bool,
    pub skip_embedding_retrieval: bool,
    pub system_message_mode: String,
    pub system_message: String,
    /// The model; missing where Copilot chooses.
    pub model: Option<String>,
    pub reasoning_effort: Option<String>,
    /// The tools that the session offers; missing where there are none.
    pub offer: Option<ToolOffer>,
}

/// The tools that a session offers, and the patterns by which it may use them.
#[derive(Debug)]
pub struct ToolOffer {
    pub tools: Vec<ToolDeclaration>,
    pub available: Vec<String>,
}

/// The model of [`SessionPlan`].
pub struct SessionPlanView {
    pub client_name: Seq<char>,
    pub streaming: bool,
    pub deny_all_permissions: bool,
    pub enable_config_discovery: bool,
    pub enable_host_git_operations: bool,
    pub enable_skills: bool,
    pub enable_session_store: bool,
    pub skip_embedding_retrieval: bool,
    pub system_message_mode: Seq<char>,
    pub system_message: Seq<char>,
    pub model: Option<Seq<char>>,
    pub reasoning_effort: Option<Seq<char>>,
    pub offer: Option<ToolOfferView>,
}

/// The model of [`ToolOffer`].
pub struct ToolOfferView {
    pub tools: Seq<ToolView>,
    pub available: Seq<Seq<char>>,
}

impl View for ToolOffer {
    type V = ToolOfferView;

    open spec fn view(&self) -> ToolOfferView {
        ToolOfferView {
            tools: tools::tool_views(self.tools@),
            available: text::texts(self.available@),
        }
    }
}

impl View for SessionPlan {
    type V = SessionPlanView;

    open spec fn view(&self) -> SessionPlanView {
        SessionPlanView {
            client_name: self.client_name@,
            streaming: self.streaming,
            deny_all_permissions: self.deny_all_permissions,
            enable_config_discovery: self.enable_config_discovery,
            enable_host_git_operations: self.enable_host_git_operations,
            enable_skills: self.enable_skills,
            enable_session_store: self.enable_session_store,
            skip_embedding_retrieval: self.skip_embedding_retrieval,
            system_message_mode: self.system_message_mode@,
            system_message: self.system_message@,
            model: text::optional_text(self.model),
            reasoning_effort: text::optional_text(self.reasoning_effort),
            offer: match self.offer {
                Some(offer) => Some(offer@),
                None => None,
            },
        }
    }
}

/// A name that leaves the choice of the model to Copilot.
pub open spec fn leaves_choice(model: Seq<char>) -> bool {
    let name = text::trimmed(model);
    ||| text::same_but_for_ascii_case("auto"@, name)
    ||| text::same_but_for_ascii_case("default"@, name)
    ||| text::same_but_for_ascii_case("copilot"@, name)
}

/// How the session is set up for a call and the tools that it offers.
pub open spec fn session_setup(request: RequestView, offered: ToolOfferView) -> SessionPlanView {
    SessionPlanView {
        client_name: "tura"@,
        streaming: request.has_stream_sink || request.stream == Some(true),
        deny_all_permissions: true,
        enable_config_discovery: false,
        enable_host_git_operations: false,
        enable_skills: false,
        enable_session_store: false,
        skip_embedding_retrieval: true,
        system_message_mode: "customize"@,
        system_message: prompt::system_text(request.messages, request.tools.len() > 0),
        model: if leaves_choice(request.model) {
            None
        } else {
            Some(request.model)
        },
        reasoning_effort: match request.reasoning_effort {
            Some(effort) => if text::blank(effort) {
                None
            } else {
                Some(effort)
            },
            None => None,
        },
        offer: if offered.tools.len() == 0 {
            None
        } else {
            Some(offered)
        },
    }
}

/// Whether a name leaves the choice of the model to Copilot.
pub fn is_automatic_model(model: &str) -> (r: bool)
    ensures
        r == leaves_choice(model@),
{
    let name = trim(model);
    same_text_ignoring_ascii_case("auto", name) || same_text_ignoring_ascii_case("default", name)
        || same_text_ignoring_ascii_case("copilot", name)
}

/// How the session is set up for a call and the tools that it offers.
pub fn session_plan(request: &CallRequest, offered: ToolOffer) -> (r: SessionPlan)
    ensures
        r@ == session_setup(request@, offered@),
{
    let system_message = system_message(request.messages.as_slice(), request.tools());
    let model = if is_automatic_model(request.model.as_str()) {
        None
    } else {
        Some(request.model.clone())
    };
    let reasoning_effort = match &request.options.reasoning_effort {
        Some(effort) => if is_blank(effort.as_str()) {
            None
        } else {
            Some(effort.clone())
        },
        None => None,
    };
    let asked_to_stream = match request.options.stream {
        Some(stream) => stream,
        None => false,
    };
    let offer = if offered.tools.len() == 0 {
        None
    } else {
        Some(offered)
    };
    SessionPlan {
        client_name: "tura".to_owned(),
        streaming: request.has_stream_sink || asked_to_stream,
        deny_all_permissions: true,
        enable_config_discovery: false,
        enable_host_git_operations: false,
        enable_skills: false,
        enable_session_store: false,
        skip_embedding_retrieval: true,
        system_message_mode: "customize".to_owned(),
        system_message,
        model,
        reasoning_effort,
        offer,
    }
}

/// How long the call waits for the answer: as long as the host says, but for a moment at least.
pub fn wait_timeout_ms(total_timeout_ms: u64) -> (r: u64)
    ensures
        r == if total_timeout_ms == 0 {
            1
        } else {
            total_timeout_ms
        },
{
    if total_timeout_ms == 0 {
        1
    } else {
        total_timeout_ms
    }
}

/// The client is told a token or finds a login by itself, never both: the token where there is
/// more to it than white space, and else the login, with the variable that stands for one taken
/// out of its environment.
pub proof fn client_has_one_credential(access_token: Seq<char>)
    ensures
        ({
            let plan = client_setup(access_token);
            &&& plan.empty_mode
            &&& plan.use_logged_in_user <==> plan.github_token is None
            &&& plan.use_logged_in_user <==> text::trimmed(access_token).len() == 0
            &&& plan.use_logged_in_user <==> plan.env_remove.contains(TOKEN_ENV@)
            &&& plan.github_token is Some ==> plan.github_token->0 == access_token
        }),
{
    text::blank_texts_trim_to_nothing(access_token);
    if text::blank(access_token) {
        assert(client_setup(access_token).env_remove[0] == TOKEN_ENV@);
    }
}

/// A session finds no configuration, skills, stored sessions or Git of the machine that it runs
/// on, is denied whatever permission it asks for, and is offered no tool but the declared ones.
pub proof fn session_is_isolated(request: RequestView)
    ensures
        ({
            let declared = tools::declarations(request.tools);
            let plan = session_setup(
                request,
                ToolOfferView { tools: declared, available: tools::custom_patterns(declared) },
            );
            &&& !plan.enable_config_discovery
            &&& !plan.enable_host_git_operations
            &&& !plan.enable_skills
            &&& !plan.enable_session_store
            &&& plan.skip_embedding_retrieval
            &&& plan.deny_all_permissions
            &&& text::occurs_in(prompt::BOUNDARY@, plan.system_message)
            &&& plan.offer is None <==> declared.len() == 0
            &&& forall|pattern: Seq<char>|
                plan.offer is Some && #[trigger] plan.offer->0.available.contains(pattern)
                    ==> exists|i: int|
                    0 <= i < declared.len() && pattern == tools::custom_pattern(
                        (#[trigger] declared[i]).name,
                    )
        }),
{
    prompt::system_message_states_the_boundary(request.messages, request.tools.len() > 0);
    let declared = tools::declarations(request.tools);
    let available = tools::custom_patterns(declared);
    assert forall|pattern: Seq<char>| #[trigger] available.contains(pattern) implies exists|i: int|
        0 <= i < declared.len() && pattern == tools::custom_pattern(
            (#[trigger] declared[i]).name,
        ) by {
        let i = choose|i: int| 0 <= i < available.len() && available[i] == pattern;
        assert(pattern == tools::custom_pattern(declared[i].name));
    }
}

/// The token goes to the client unchanged, unless there is nothing to it but white space; then the
/// client looks for a login, without the variable that stands for a token. Nothing else is taken
/// out of its environment.
pub proof fn token_is_handed_on(access_token: Seq<char>)
    ensures
        client_setup(access_token).empty_mode,
        text::blank(access_token) ==> {
            &&& client_setup(access_token).github_token is None
            &&& client_setup(access_token).use_logged_in_user
            &&& client_setup(access_token).env_remove == seq!["COPILOT_GITHUB_TOKEN"@]
        },
        !text::blank(access_token) ==> {
            &&& client_setup(access_token).github_token == Some(access_token)
            &&& !client_setup(access_token).use_logged_in_user
            &&& client_setup(access_token).env_remove.len() == 0
        },
{
}

/// The session is told the model, unchanged, unless its name is `auto`, `default` or `copilot`
/// once the white space at its ends and the case of its ASCII letters are set aside.
pub proof fn model_is_handed_on(request: RequestView, offered: ToolOfferView)
    ensures
        ({
            let name = text::trimmed(request.model);
            let automatic = text::same_but_for_ascii_case(name, "auto"@)
                || text::same_but_for_ascii_case(name, "default"@) || text::same_but_for_ascii_case(
                name,
                "copilot"@,
            );
            &&& automatic ==> session_setup(request, offered).model is None
            &&& !automatic ==> session_setup(request, offered).model == Some(request.model)
        }),
{
}

/// What a call asks for reaches the session: the effort where it is not blank, streaming where the
/// host listens or the call asks for it, the tools that are offered, if any, and the system message
/// for the messages and tools of the call.
pub proof fn session_does_what_the_call_asks(request: RequestView, offered: ToolOfferView)
    ensures
        ({
            let plan = session_setup(request, offered);
            let effort = request.reasoning_effort;
            &&& effort is Some && !text::blank(effort->0) ==> plan.reasoning_effort == effort
            &&& (effort is Some ==> text::blank(effort->0)) ==> plan.reasoning_effort is None
            &&& request.has_stream_sink ==> plan.streaming
            &&& request.stream == Some(true) ==> plan.streaming
            &&& !request.has_stream_sink && request.stream != Some(true) ==> !plan.streaming
            &&& offered.tools.len() > 0 ==> plan.offer == Some(offered)
            &&& offered.tools.len() == 0 ==> plan.offer is None
            &&& plan.system_message == prompt::system_text(
                request.messages,
                request.tools.len() > 0,
            )
            &&& plan.system_message_mode == "customize"@
            &&& plan.client_name == "tura"@
        }),
{
}

/// The model of a call: all of its messages and tools, in order, and its choices as they are.
pub proof fn request_has_its_model(request: CallRequest)
    ensures
        request@.model == request.model@,
        request@.access_token == request.access_token@,
        request@.messages.len() == request.messages@.len(),
        forall|i: int|
            0 <= i < request.messages@.len() ==> (#[trigger] request@.messages[i])
                == request.messages@[i]@,
        request.options.tools is None ==> request@.tools.len() == 0,
        request.options.tools is Some ==> {
            &&& request@.tools.len() == request.options.tools->0@.len()
            &&& forall|i: int|
                0 <= i < request.options.tools->0@.len() ==> (#[trigger] request@.tools[i])
                    == request.options.tools->0@[i]@
        },
        request.options.reasoning_effort is None ==> request@.reasoning_effort is None,
        request.options.reasoning_effort is Some ==> request@.reasoning_effort == Some(
            request.options.reasoning_effort->0@,
        ),
        request@.stream == request.options.stream,
        request@.has_stream_sink == request.has_stream_sink,
        request@.total_timeout_ms == request.total_timeout_ms,
{
}

/// The model of a client's plan: all that the client is started with.
pub proof fn client_plan_has_its_model(plan: ClientPlan)
    ensures
        plan@.empty_mode == plan.empty_mode,
        plan@.use_logged_in_user == plan.use_logged_in_user,
        plan@.env_remove.len() == plan.env_remove@.len(),
        forall|i: int|
            0 <= i < plan.env_remove@.len() ==> (#[trigger] plan@.env_remove[i])
                == plan.env_remove@[i]@,
        plan.github_token is None ==> plan@.github_token is None,
        plan.github_token is Some ==> plan@.github_token == Some(plan.github_token->0@),
{
}

/// The model of a session's plan: all that the session is set up with.
pub proof fn session_plan_has_its_model(plan: SessionPlan)
    ensures
        plan@.client_name == plan.client_name@,
        plan@.streaming == plan.streaming,
        plan@.deny_all_permissions == plan.deny_all_permissions,
        plan@.enable_config_discovery == plan.enable_config_discovery,
        plan@.enable_host_git_operations == plan.enable_host_git_operations,
        plan@.enable_skills == plan.enable_skills,
        plan@.enable_session_store == plan.enable_session_store,
        plan@.skip_embedding_retrieval == plan.skip_embedding_retrieval,
        plan@.system_message_mode == plan.system_message_mode@,
        plan@.system_message == plan.system_message@,
        plan.model is None ==> plan@.model is None,
        plan.model is Some ==> plan@.model == Some(plan.model->0@),
        plan.reasoning_effort is None ==> plan@.reasoning_effort is None,
        plan.reasoning_effort is Some ==> plan@.reasoning_effort == Some(
            plan.reasoning_effort->0@,
        ),
        plan.offer is None ==> plan@.offer is None,
        plan.offer is Some ==> {
            let offer = plan.offer->0;
            &&& plan@.offer is Some
            &&& plan@.offer->0.tools.len() == offer.tools@.len()
            &&& plan@.offer->0.available.len() == offer.available@.len()
            &&& forall|i: int|
                0 <= i < offer.tools@.len() ==> (#[trigger] plan@.offer->0.tools[i])
                    == offer.tools@[i]@
            &&& forall|i: int|
                0 <= i < offer.available@.len() ==> (#[trigger] plan@.offer->0.available[i])
                    == offer.available@[i]@
        },
{
}

} // verus!
