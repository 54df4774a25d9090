//! The provider's entry in the model catalog.

use vstd::hash_map::StringHashMap;
use vstd::prelude::*;

use crate::text;
use crate::text::same_text;
use crate::PROVIDER_ID;

verus! {

/// The address under which the provider is reached: the SDK itself, not a host.
pub const SDK_BASE_URL: &'static str = "sdk://github-copilot";

/// The environment variable that holds the provider's token.
pub const TOKEN_ENV: &'static str = "COPILOT_GITHUB_TOKEN";

/// The configuration that the overlay works on.
pub struct RootConfig {
    pub provider_base_url: StringHashMap<String>,
    pub model_catalog: ModelCatalog,
    pub provider_enums: ProviderEnums,
}

/// The tiers of models, and what each provider offers in them.
pub struct ModelCatalog {
    pub tiers: Vec<String>,
    pub providers: StringHashMap<ProviderCatalogConfig>,
}

/// The words that a provider's entry may use.
pub struct ProviderEnums {
    pub api_styles: Vec<String>,
    pub auth_methods: Vec<String>,
    pub capabilities: Vec<String>,
}

/// A provider's entry.
pub struct ProviderCatalogConfig {
    pub display_name: String,
    pub runtime_provider: String,
    pub api_style: String,
    pub base_url: String,
    pub token_env: Option<String>,
    pub env: Vec<String>,
    pub domains: Vec<String>,
    pub capabilities: Vec<String>,
    pub auth_methods: Vec<String>,
    pub api_docs: Option<String>,
    pub status: Option<String>,
    pub models: StringHashMap<Vec<CatalogModelConfig>>,
}

/// A model of a provider's entry.
#[derive(Debug)]
pub enum CatalogModelConfig {
    Detailed(CatalogModelDetail),
}

/// What the catalog says of a model.
#[derive(Debug)]
pub struct CatalogModelDetail {
    pub id: String,
    pub visible: bool,
    pub name: String,
    pub family: String,
    pub reasoning: bool,
    pub temperature: bool,
    pub tool_call: bool,
}

/// The model of [`RootConfig`].
pub struct RootConfigView {
    pub provider_base_url: Map<Seq<char>, Seq<char>>,
    pub tiers: Seq<Seq<char>>,
    pub providers: Map<Seq<char>, ProviderView>,
    pub api_styles: Seq<Seq<char>>,
    pub auth_methods: Seq<Seq<char>>,
    pub capabilities: Seq<Seq<char>>,
}

/// The model of [`ProviderCatalogConfig`].
pub struct ProviderView {
    pub display_name: Seq<char>,
    pub runtime_provider: Seq<char>,
    pub api_style: Seq<char>,
    pub base_url: Seq<char>,
    pub token_env: Option<Seq<char>>,
    pub env: Seq<Seq<char>>,
    pub domains: Seq<Seq<char>>,
    pub capabilities: Seq<Seq<char>>,
    pub auth_methods: Seq<Seq<char>>,
    pub api_docs: Option<Seq<char>>,
    pub status: Option<Seq<char>>,
    pub models: Map<Seq<char>, Seq<ModelView>>,
}

/// The model of [`CatalogModelDetail`].
pub struct ModelView {
    pub id: Seq<char>,
    pub visible: bool,
    pub name: Seq<char>,
    pub family: Seq<char>,
    pub reasoning: bool,
    pub temperature: bool,
    pub tool_call: bool,
}

impl View for CatalogModelDetail {
    type V = ModelView;

    open spec fn view(&self) -> ModelView {
        ModelView {
            id: self.id@,
            visible: self.visible,
            name: self.name@,
            family: self.family@,
            reasoning: self.reasoning,
            temperature: self.temperature,
            tool_call: self.tool_call,
        }
    }
}

impl View for CatalogModelConfig {
    type V = ModelView;

    open spec fn view(&self) -> ModelView {
        match self {
            CatalogModelConfig::Detailed(detail) => detail@,
        }
    }
}

impl View for ProviderCatalogConfig {
    type V = ProviderView;

    open spec fn view(&self) -> ProviderView {
        ProviderView {
            display_name: self.display_name@,
            runtime_provider: self.runtime_provider@,
            api_style: self.api_style@,
            base_url: self.base_url@,
            token_env: text::optional_text(self.token_env),
            env: text::texts(self.env@),
            domains: text::texts(self.domains@),
            capabilities: text::texts(self.capabilities@),
            auth_methods: text::texts(self.auth_methods@),
            api_docs: text::optional_text(self.api_docs),
            status: text::optional_text(self.status),
            models: self.models@.map_values(
                |models: Vec<CatalogModelConfig>| models@.map_values(|m: CatalogModelConfig| m@),
            ),
        }
    }
}

impl View for RootConfig {
    type V = RootConfigView;

    open spec fn view(&self) -> RootConfigView {
        RootConfigView {
            provider_base_url: self.provider_base_url@.map_values(|url: String| url@),
            tiers: text::texts(self.model_catalog.tiers@),
            providers: self.model_catalog.providers@.map_values(|p: ProviderCatalogConfig| p@),
            api_styles: text::texts(self.provider_enums.api_styles@),
            auth_methods: text::texts(self.provider_enums.auth_methods@),
            capabilities: text::texts(self.provider_enums.capabilities@),
        }
    }
}

/// The list with a word in it: unchanged where it holds the word, else with the word behind it.
pub open spec fn with_word(words: Seq<Seq<char>>, word: Seq<char>) -> Seq<Seq<char>> {
    if words.contains(word) {
        words
    } else {
        words.push(word)
    }
}

/// The model that lets Copilot choose.
pub open spec fn auto_model() -> ModelView {
    ModelView {
        id: "auto"@,
        visible: true,
        name: "Copilot automatic model"@,
        family: "github-copilot"@,
        reasoning: true,
        temperature: false,
        tool_call: true,
    }
}

/// The provider's entry.
pub open spec fn copilot_entry() -> ProviderView {
    ProviderView {
        display_name: "GitHub Copilot"@,
        runtime_provider: PROVIDER_ID@,
        api_style: "copilot_sdk"@,
        base_url: SDK_BASE_URL@,
        token_env: Some(TOKEN_ENV@),
        env: seq![TOKEN_ENV@, "GH_TOKEN"@, "GITHUB_TOKEN"@, "COPILOT_CLI_PATH"@],
        domains: seq!["llm"@],
        capabilities: seq!["llm.chat"@, "llm.tool_call"@, "llm.streaming"@],
        auth_methods: seq!["local_cli_token"@, "api_key"@],
        api_docs: Some("https://github.com/github/copilot-sdk"@),
        status: Some("configured"@),
        models: Map::empty().insert("thinking"@, seq![auto_model()]).insert(
            "fast"@,
            seq![auto_model()],
        ),
    }
}

/// The configuration once the provider is in it.
pub open spec fn with_copilot(config: RootConfigView) -> RootConfigView {
    RootConfigView {
        provider_base_url: config.provider_base_url.insert(PROVIDER_ID@, SDK_BASE_URL@),
        tiers: with_word(with_word(config.tiers, "thinking"@), "fast"@),
        providers: config.providers.insert(PROVIDER_ID@, copilot_entry()),
        api_styles: with_word(config.api_styles, "copilot_sdk"@),
        auth_methods: with_word(config.auth_methods, "local_cli_token"@),
        capabilities: with_word(config.capabilities, "llm.streaming"@),
    }
}

/// Puts a word into a list, unless the list holds it.
pub fn ensure_enum(values: &mut Vec<String>, value: &str)
    ensures
        text::texts(final(values)@) == with_word(text::texts(old(values)@), value@),
{
    let ghost words = text::texts(values@);
    let mut i: usize = 0;
    while i < values.len()
        invariant
            i <= values.len(),
            values@ == old(values)@,
            words == text::texts(values@),
            forall|j: int| 0 <= j < i ==> #[trigger] words[j] != value@,
        decreases values.len() - i,
    {
        if same_text(values[i].as_str(), value) {
            assert(words[i as int] == value@);
            return ;
        }
        i = i + 1;
    }
    values.push(value.to_owned());
    assert(text::texts(values@) =~= words.push(value@));
}

/// Puts a tier into the catalog, unless the catalog has it.
pub fn ensure_tier(catalog: &mut ModelCatalog, tier: &str)
    ensures
        text::texts(final(catalog).tiers@) == with_word(text::texts(old(catalog).tiers@), tier@),
        final(catalog).providers == old(catalog).providers,
{
    ensure_enum(&mut catalog.tiers, tier);
}

fn auto() -> (r: CatalogModelConfig)
    ensures
        r@ == auto_model(),
{
    CatalogModelConfig::Detailed(
        CatalogModelDetail {
            id: "auto".to_owned(),
            visible: true,
            name: "Copilot automatic model".to_owned(),
            family: "github-copilot".to_owned(),
            reasoning: true,
            temperature: false,
            tool_call: true,
        },
    )
}

fn entry() -> (r: ProviderCatalogConfig)
    ensures
        r@ == copilot_entry(),
{
    let env = vec![
        TOKEN_ENV.to_owned(),
        "GH_TOKEN".to_owned(),
        "GITHUB_TOKEN".to_owned(),
        "COPILOT_CLI_PATH".to_owned(),
    ];
    let domains = vec!["llm".to_owned()];
    let capabilities = vec![
        "llm.chat".to_owned(),
        "llm.tool_call".to_owned(),
        "llm.streaming".to_owned(),
    ];
    let auth_methods = vec!["local_cli_token".to_owned(), "api_key".to_owned()];
    let mut models: StringHashMap<Vec<CatalogModelConfig>> = StringHashMap::new();
    let thinking = vec![auto()];
    let fast = vec![auto()];
    proof {
        let view = |m: CatalogModelConfig| m@;
        assert(thinking@.map_values(view) =~= seq![auto_model()]);
        assert(fast@.map_values(view) =~= seq![auto_model()]);
    }
    models.insert("thinking".to_owned(), thinking);
    models.insert("fast".to_owned(), fast);
    let r = ProviderCatalogConfig {
        display_name: "GitHub Copilot".to_owned(),
        runtime_provider: PROVIDER_ID.to_owned(),
        api_style: "copilot_sdk".to_owned(),
        base_url: SDK_BASE_URL.to_owned(),
        token_env: Some(TOKEN_ENV.to_owned()),
        env,
        domains,
        capabilities,
        auth_methods,
        api_docs: Some("https://github.com/github/copilot-sdk".to_owned()),
        status: Some("configured".to_owned()),
        models,
    };
    proof {
        assert(r@.env =~= copilot_entry().env);
        assert(r@.domains =~= copilot_entry().domains);
        assert(r@.capabilities =~= copilot_entry().capabilities);
        assert(r@.auth_methods =~= copilot_entry().auth_methods);
        assert(r@.models =~= copilot_entry().models);
    }
    r
}

/// Makes the provider callable: gives it its address, its entry with a model that lets Copilot
/// choose, and the words that the entry uses.
pub fn apply(config: &mut RootConfig)
    ensures
        final(config)@ == with_copilot(old(config)@),
{
    config.provider_base_url.insert(PROVIDER_ID.to_owned(), SDK_BASE_URL.to_owned());
    ensure_tier(&mut config.model_catalog, "thinking");
    ensure_tier(&mut config.model_catalog, "fast");
    ensure_enum(&mut config.provider_enums.api_styles, "copilot_sdk");
    ensure_enum(&mut config.provider_enums.auth_methods, "local_cli_token");
    ensure_enum(&mut config.provider_enums.capabilities, "llm.streaming");
    config.model_catalog.providers.insert(PROVIDER_ID.to_owned(), entry());
    proof {
        let expected = with_copilot(old(config)@);
        assert(config@.provider_base_url =~= expected.provider_base_url);
        assert(config@.providers =~= expected.providers);
    }
}

/// What the token's environment variable is set to before the provider is called: nothing where
/// it is set, else the empty text, which stands for a login that the SDK finds by itself.
pub fn token_sentinel(token_is_set: bool) -> (r: Option<&'static str>)
    ensures
        token_is_set ==> r is None,
        !token_is_set ==> r is Some && r->0@ == ""@,
{
    if token_is_set {
        None
    } else {
        Some("")
    }
}

impl CatalogModelConfig {
    /// The model's identifier.
    pub fn id(&self) -> (r: &str)
        ensures
            r@ == self@.id,
    {
        match self {
            CatalogModelConfig::Detailed(detail) => detail.id.as_str(),
        }
    }
}

impl Default for RootConfig {
    fn default() -> (r: RootConfig)
        ensures
            r@ == (RootConfigView {
                provider_base_url: Map::empty(),
                tiers: Seq::empty(),
                providers: Map::empty(),
                api_styles: Seq::empty(),
                auth_methods: Seq::empty(),
                capabilities: Seq::empty(),
            }),
    {
        let r = RootConfig {
            provider_base_url: StringHashMap::new(),
            model_catalog: ModelCatalog { tiers: Vec::new(), providers: StringHashMap::new() },
            provider_enums: ProviderEnums {
                api_styles: Vec::new(),
                auth_methods: Vec::new(),
                capabilities: Vec::new(),
            },
        };
        assert(r@.provider_base_url =~= Map::empty());
        assert(r@.providers =~= Map::empty());
        assert(r@.tiers =~= Seq::empty());
        assert(r@.api_styles =~= Seq::empty());
        r
    }
}

/// A word that was put into a list is in it, and what the list held stays in its place.
pub proof fn word_is_kept(words: Seq<Seq<char>>, word: Seq<char>)
    ensures
        with_word(words, word).contains(word),
        words.is_prefix_of(with_word(words, word)),
        with_word(with_word(words, word), word) == with_word(words, word),
        words.no_duplicates() ==> with_word(words, word).no_duplicates(),
{
    if !words.contains(word) {
        let after = words.push(word);
        assert(after[words.len() as int] == word);
        assert(after.take(words.len() as int) =~= words);
    }
}

/// Applying the overlay a second time changes nothing.
pub proof fn apply_is_idempotent(config: RootConfigView)
    ensures
        with_copilot(with_copilot(config)) == with_copilot(config),
{
    let once = with_copilot(config);
    let twice = with_copilot(once);
    word_is_kept(config.tiers, "thinking"@);
    let tiers = with_word(config.tiers, "thinking"@);
    word_is_kept(tiers, "fast"@);
    let i = choose|i: int| 0 <= i < tiers.len() && tiers[i] == "thinking"@;
    assert(once.tiers[i] == "thinking"@);
    word_is_kept(config.api_styles, "copilot_sdk"@);
    word_is_kept(config.auth_methods, "local_cli_token"@);
    word_is_kept(config.capabilities, "llm.streaming"@);
    assert(twice.provider_base_url =~= once.provider_base_url);
    assert(twice.providers =~= once.providers);
}

/// Once the overlay is applied the provider can be called through the SDK: its entry and its
/// address agree, its runtime is itself, every tier that it offers models in is a tier of the
/// catalog and offers the automatic model, and the catalog knows the words of its API, its own
/// login and streaming.
pub proof fn applied_provider_is_callable(config: RootConfigView)
    ensures
        ({
            let after = with_copilot(config);
            let provider = after.providers[PROVIDER_ID@];
            &&& after.providers.contains_key(PROVIDER_ID@)
            &&& after.provider_base_url.contains_key(PROVIDER_ID@)
            &&& after.provider_base_url[PROVIDER_ID@] == provider.base_url
            &&& provider.base_url == SDK_BASE_URL@
            &&& provider.runtime_provider == PROVIDER_ID@
            &&& provider.models.dom() == set!["thinking"@, "fast"@]
            &&& forall|tier: Seq<char>| #[trigger]
                provider.models.contains_key(tier) ==> {
                    &&& after.tiers.contains(tier)
                    &&& provider.models[tier] == seq![auto_model()]
                }
            &&& after.api_styles.contains(provider.api_style)
            &&& after.auth_methods.contains(provider.auth_methods[0])
            &&& after.capabilities.contains(provider.capabilities[2])
        }),
{
    let after = with_copilot(config);
    let provider = after.providers[PROVIDER_ID@];
    let tiers = with_word(config.tiers, "thinking"@);
    word_is_kept(config.tiers, "thinking"@);
    word_is_kept(tiers, "fast"@);
    let i = choose|i: int| 0 <= i < tiers.len() && tiers[i] == "thinking"@;
    assert(after.tiers[i] == "thinking"@);
    word_is_kept(config.api_styles, "copilot_sdk"@);
    word_is_kept(config.auth_methods, "local_cli_token"@);
    word_is_kept(config.capabilities, "llm.streaming"@);
    assert(provider.models.dom() =~= set!["thinking"@, "fast"@]);
}

/// The overlay leaves every other provider's address and entry as it was, and takes no word out
/// of a list.
pub proof fn apply_leaves_the_rest(config: RootConfigView, other: Seq<char>)
    requires
        other != PROVIDER_ID@,
    ensures
        with_copilot(config).providers.contains_key(other) == config.providers.contains_key(other),
        config.providers.contains_key(other) ==> with_copilot(config).providers[other]
            == config.providers[other],
        with_copilot(config).provider_base_url.contains_key(other)
            == config.provider_base_url.contains_key(other),
        config.provider_base_url.contains_key(other) ==> with_copilot(
            config,
        ).provider_base_url[other] == config.provider_base_url[other],
        config.tiers.is_prefix_of(with_copilot(config).tiers),
        config.api_styles.is_prefix_of(with_copilot(config).api_styles),
        config.auth_methods.is_prefix_of(with_copilot(config).auth_methods),
        config.capabilities.is_prefix_of(with_copilot(config).capabilities),
{
    let tiers = with_word(config.tiers, "thinking"@);
    word_is_kept(config.tiers, "thinking"@);
    word_is_kept(tiers, "fast"@);
    let after = with_copilot(config).tiers;
    assert(after.take(config.tiers.len() as int) =~= tiers.take(config.tiers.len() as int));
    word_is_kept(config.api_styles, "copilot_sdk"@);
    word_is_kept(config.auth_methods, "local_cli_token"@);
    word_is_kept(config.capabilities, "llm.streaming"@);
}

/// A word is put into a list at most once, behind the words that are there: a list that holds the
/// word is left as it is, and one that does not ends with it.
pub proof fn word_is_put_behind_the_others(words: Seq<Seq<char>>, word: Seq<char>, other: Seq<char>)
    ensures
        words.contains(word) ==> with_word(words, word) == words,
        !words.contains(word) ==> {
            &&& with_word(words, word).len() == words.len() + 1
            &&& with_word(words, word).last() == word
        },
        with_word(words, word).contains(other) <==> words.contains(other) || other == word,
{
    word_is_kept(words, word);
    let after = with_word(words, word);
    if words.contains(other) {
        let i = choose|i: int| 0 <= i < words.len() && words[i] == other;
        assert(after.take(words.len() as int)[i] == words[i]);
        assert(after[i] == other);
    }
    if after.contains(other) && !words.contains(other) && other != word {
        let i = choose|i: int| 0 <= i < after.len() && after[i] == other;
        if i < words.len() {
            assert(words[i] == other);
        }
    }
}

/// What the overlay writes of the provider does not depend on the configuration, and replaces
/// whatever stood there.
pub proof fn entry_is_the_same_everywhere(a: RootConfigView, b: RootConfigView)
    ensures
        with_copilot(a).providers.contains_key("github-copilot"@),
        with_copilot(a).providers["github-copilot"@] == with_copilot(b).providers[
            "github-copilot"@],
        with_copilot(a).provider_base_url.contains_key("github-copilot"@),
        with_copilot(a).provider_base_url["github-copilot"@] == "sdk://github-copilot"@,
{
}

/// The overlay adds to each list the words that the provider's entry uses, and no others: two
/// tiers, an API, a login and a capability.
pub proof fn overlay_adds_its_own_words_only(config: RootConfigView, word: Seq<char>)
    ensures
        ({
            let after = with_copilot(config);
            &&& after.tiers.contains(word) <==> config.tiers.contains(word) || word == "thinking"@
                || word == "fast"@
            &&& after.api_styles.contains(word) <==> config.api_styles.contains(word) || word
                == "copilot_sdk"@
            &&& after.auth_methods.contains(word) <==> config.auth_methods.contains(word) || word
                == "local_cli_token"@
            &&& after.capabilities.contains(word) <==> config.capabilities.contains(word) || word
                == "llm.streaming"@
            &&& config.tiers.no_duplicates() ==> after.tiers.no_duplicates()
            &&& config.api_styles.no_duplicates() ==> after.api_styles.no_duplicates()
            &&& config.auth_methods.no_duplicates() ==> after.auth_methods.no_duplicates()
            &&& config.capabilities.no_duplicates() ==> after.capabilities.no_duplicates()
            &&& after.tiers.len() <= config.tiers.len() + 2
            &&& after.api_styles.len() <= config.api_styles.len() + 1
            &&& after.auth_methods.len() <= config.auth_methods.len() + 1
            &&& after.capabilities.len() <= config.capabilities.len() + 1
            &&& !config.tiers.contains("fast"@) ==> after.tiers.last() == "fast"@
        }),
{
    let tiers = with_word(config.tiers, "thinking"@);
    word_is_put_behind_the_others(config.tiers, "thinking"@, word);
    word_is_put_behind_the_others(config.tiers, "thinking"@, "fast"@);
    word_is_put_behind_the_others(tiers, "fast"@, word);
    word_is_put_behind_the_others(config.api_styles, "copilot_sdk"@, word);
    word_is_put_behind_the_others(config.auth_methods, "local_cli_token"@, word);
    word_is_put_behind_the_others(config.capabilities, "llm.streaming"@, word);
    word_is_kept(config.tiers, "thinking"@);
    word_is_kept(tiers, "fast"@);
    word_is_kept(config.api_styles, "copilot_sdk"@);
    word_is_kept(config.auth_methods, "local_cli_token"@);
    word_is_kept(config.capabilities, "llm.streaming"@);
    reveal_strlit("thinking");
    reveal_strlit("fast");
    assert("thinking"@.len() != "fast"@.len());
}

/// The model of a configuration: its addresses, its lists and its providers as they are.
pub proof fn config_has_its_model(config: RootConfig, id: Seq<char>, i: int)
    ensures
        config@.provider_base_url.contains_key(id) <==> config.provider_base_url@.contains_key(id),
        config.provider_base_url@.contains_key(id) ==> config@.provider_base_url[id]
            == config.provider_base_url@[id]@,
        config@.providers.contains_key(id) <==> config.model_catalog.providers@.contains_key(id),
        config.model_catalog.providers@.contains_key(id) ==> config@.providers[id]
            == config.model_catalog.providers@[id]@,
        config@.tiers.len() == config.model_catalog.tiers@.len(),
        config@.api_styles.len() == config.provider_enums.api_styles@.len(),
        config@.auth_methods.len() == config.provider_enums.auth_methods@.len(),
        config@.capabilities.len() == config.provider_enums.capabilities@.len(),
        0 <= i < config@.tiers.len() ==> config@.tiers[i] == config.model_catalog.tiers@[i]@,
        0 <= i < config@.api_styles.len() ==> config@.api_styles[i]
            == config.provider_enums.api_styles@[i]@,
        0 <= i < config@.auth_methods.len() ==> config@.auth_methods[i]
            == config.provider_enums.auth_methods@[i]@,
        0 <= i < config@.capabilities.len() ==> config@.capabilities[i]
            == config.provider_enums.capabilities@[i]@,
{
}

/// The model of a catalog's model: all that the catalog says of it.
pub proof fn catalog_model_has_its_model(detail: CatalogModelDetail)
    ensures
        CatalogModelConfig::Detailed(detail)@ == detail@,
        detail@.id == detail.id@,
        detail@.visible == detail.visible,
        detail@.name == detail.name@,
        detail@.family == detail.family@,
        detail@.reasoning == detail.reasoning,
        detail@.temperature == detail.temperature,
        detail@.tool_call == detail.tool_call,
{
}

/// The model of a provider's entry: all that the entry says, and its models tier by tier.
pub proof fn entry_has_its_model(entry: ProviderCatalogConfig, tier: Seq<char>, i: int)
    ensures
        entry@.display_name == entry.display_name@,
        entry@.runtime_provider == entry.runtime_provider@,
        entry@.api_style == entry.api_style@,
        entry@.base_url == entry.base_url@,
        entry.token_env is Some ==> entry@.token_env == Some(entry.token_env->0@),
        entry.token_env is None ==> entry@.token_env is None,
        entry.api_docs is Some ==> entry@.api_docs == Some(entry.api_docs->0@),
        entry.api_docs is None ==> entry@.api_docs is None,
        entry.status is Some ==> entry@.status == Some(entry.status->0@),
        entry.status is None ==> entry@.status is None,
        entry@.env.len() == entry.env@.len(),
        entry@.domains.len() == entry.domains@.len(),
        entry@.capabilities.len() == entry.capabilities@.len(),
        entry@.auth_methods.len() == entry.auth_methods@.len(),
        0 <= i < entry@.env.len() ==> entry@.env[i] == entry.env@[i]@,
        0 <= i < entry@.domains.len() ==> entry@.domains[i] == entry.domains@[i]@,
        0 <= i < entry@.capabilities.len() ==> entry@.capabilities[i] == entry.capabilities@[i]@,
        0 <= i < entry@.auth_methods.len() ==> entry@.auth_methods[i] == entry.auth_methods@[i]@,
        entry@.models.contains_key(tier) <==> entry.models@.contains_key(tier),
        entry.models@.contains_key(tier) ==> {
            &&& entry@.models[tier].len() == entry.models@[tier]@.len()
            &&& 0 <= i < entry@.models[tier].len() ==> entry@.models[tier][i]
                == entry.models@[tier]@[i]@
        },
{
}

} // verus!
