//! Backend families and the adapters that stand for configured backends.
use vstd::prelude::*;
use vstd::string::StringExecFns;
use crate::config::{ConfigView, ProviderConfig};
use crate::error::{ErrorView, ProviderError};
use crate::text::{clone_text, clone_texts, same_text};

verus! {

/// The backend families that an adapter can be constructed for.
#[derive(Debug, Clone, Copy, PartialEq, Eq, Structural)]
pub enum ProviderKind {
    OpenAi,
    Anthropic,
    Zai,
    Minimax,
    Zenmux,
    KimiCoding,
    OpenRouter,
    DeepInfra,
    Novita,
    Baseten,
    Together,
    GithubCopilot,
    Fireworks,
    Groq,
    Nebius,
    Cerebras,
    Moonshot,
    Qwen,
    Gemini,
    Longcat,
    Ollama,
    LmStudio,
}

/// The family that a tag of the configuration selects, if it selects one.
pub open spec fn kind_of_tag(tag: Seq<char>) -> Option<ProviderKind> {
    if tag == "openai"@ {
        Some(ProviderKind::OpenAi)
    } else if tag == "anthropic"@ {
        Some(ProviderKind::Anthropic)
    } else if tag == "z.ai"@ {
        Some(ProviderKind::Zai)
    } else if tag == "minimax"@ {
        Some(ProviderKind::Minimax)
    } else if tag == "zenmux"@ {
        Some(ProviderKind::Zenmux)
    } else if tag == "kimi-coding"@ {
        Some(ProviderKind::KimiCoding)
    } else if tag == "openrouter"@ {
        Some(ProviderKind::OpenRouter)
    } else if tag == "deepinfra"@ {
        Some(ProviderKind::DeepInfra)
    } else if tag == "novita"@ {
        Some(ProviderKind::Novita)
    } else if tag == "baseten"@ {
        Some(ProviderKind::Baseten)
    } else if tag == "together"@ {
        Some(ProviderKind::Together)
    } else if tag == "github-copilot"@ || tag == "copilot"@ {
        Some(ProviderKind::GithubCopilot)
    } else if tag == "fireworks"@ {
        Some(ProviderKind::Fireworks)
    } else if tag == "groq"@ {
        Some(ProviderKind::Groq)
    } else if tag == "nebius"@ {
        Some(ProviderKind::Nebius)
    } else if tag == "cerebras"@ {
        Some(ProviderKind::Cerebras)
    } else if tag == "moonshot"@ {
        Some(ProviderKind::Moonshot)
    } else if tag == "qwen"@ {
        Some(ProviderKind::Qwen)
    } else if tag == "gemini"@ {
        Some(ProviderKind::Gemini)
    } else if tag == "longcat"@ {
        Some(ProviderKind::Longcat)
    } else if tag == "ollama"@ {
        Some(ProviderKind::Ollama)
    } else if tag == "lmstudio"@ {
        Some(ProviderKind::LmStudio)
    } else {
        None
    }
}

impl ProviderKind {
    /// The endpoint of the family for an entry that declares none. A family without
    /// one here is a preset, which has an endpoint of its own.
    pub open spec fn default_base_url(self) -> Option<Seq<char>> {
        match self {
            ProviderKind::OpenAi => Some("https://api.openai.com/v1"@),
            ProviderKind::Anthropic => Some("https://api.anthropic.com"@),
            ProviderKind::Longcat => Some("https://api.longcat.ai/v1"@),
            ProviderKind::Ollama => Some("http://localhost:11434/v1"@),
            ProviderKind::LmStudio => Some("http://localhost:1234/v1"@),
            _ => None,
        }
    }

    /// Whether adapters of the family are told which entry of the OAuth credential
    /// source is theirs.
    pub open spec fn takes_oauth_provider(self) -> bool {
        self == ProviderKind::OpenAi || self == ProviderKind::Anthropic
    }

    /// Whether adapters of the family are handed the shared OAuth credential source.
    pub open spec fn takes_token_store(self) -> bool {
        ||| self == ProviderKind::OpenAi
        ||| self == ProviderKind::Anthropic
        ||| self == ProviderKind::Zai
        ||| self == ProviderKind::Minimax
        ||| self == ProviderKind::Zenmux
        ||| self == ProviderKind::KimiCoding
    }

    /// The family that a tag of the configuration selects, if it selects one.
    pub fn from_tag(tag: &str) -> (r: Option<ProviderKind>)
        ensures
            r == kind_of_tag(tag@),
    {
        if same_text(tag, "openai") {
            Some(ProviderKind::OpenAi)
        } else if same_text(tag, "anthropic") {
            Some(ProviderKind::Anthropic)
        } else if same_text(tag, "z.ai") {
            Some(ProviderKind::Zai)
        } else if same_text(tag, "minimax") {
            Some(ProviderKind::Minimax)
        } else if same_text(tag, "zenmux") {
            Some(ProviderKind::Zenmux)
        } else if same_text(tag, "kimi-coding") {
            Some(ProviderKind::KimiCoding)
        } else if same_text(tag, "openrouter") {
            Some(ProviderKind::OpenRouter)
        } else if same_text(tag, "deepinfra") {
            Some(ProviderKind::DeepInfra)
        } else if same_text(tag, "novita") {
            Some(ProviderKind::Novita)
        } else if same_text(tag, "baseten") {
            Some(ProviderKind::Baseten)
        } else if same_text(tag, "together") {
            Some(ProviderKind::Together)
        } else if same_text(tag, "github-copilot") || same_text(tag, "copilot") {
            Some(ProviderKind::GithubCopilot)
        } else if same_text(tag, "fireworks") {
            Some(ProviderKind::Fireworks)
        } else if same_text(tag, "groq") {
            Some(ProviderKind::Groq)
        } else if same_text(tag, "nebius") {
            Some(ProviderKind::Nebius)
        } else if same_text(tag, "cerebras") {
            Some(ProviderKind::Cerebras)
        } else if same_text(tag, "moonshot") {
            Some(ProviderKind::Moonshot)
        } else if same_text(tag, "qwen") {
            Some(ProviderKind::Qwen)
        } else if same_text(tag, "gemini") {
            Some(ProviderKind::Gemini)
        } else if same_text(tag, "longcat") {
            Some(ProviderKind::Longcat)
        } else if same_text(tag, "ollama") {
            Some(ProviderKind::Ollama)
        } else if same_text(tag, "lmstudio") {
            Some(ProviderKind::LmStudio)
        } else {
            None
        }
    }

    /// The endpoint of the family for an entry that declares none.
    pub fn default_url(self) -> (r: Option<String>)
        ensures
            r.deep_view() == self.default_base_url(),
    {
        match self {
            ProviderKind::OpenAi => Some(String::from_str("https://api.openai.com/v1")),
            ProviderKind::Anthropic => Some(String::from_str("https://api.anthropic.com")),
            ProviderKind::Longcat => Some(String::from_str("https://api.longcat.ai/v1")),
            ProviderKind::Ollama => Some(String::from_str("http://localhost:11434/v1")),
            ProviderKind::LmStudio => Some(String::from_str("http://localhost:1234/v1")),
            _ => None,
        }
    }
}

/// A handle to the shared source of OAuth credentials. The registry hands it to the
/// adapters that can use it and never looks inside.
#[derive(Debug, PartialEq, Eq)]
pub struct TokenStore {
    /// The name by which the application knows the source.
    pub label: String,
}

impl View for TokenStore {
    type V = Seq<char>;

    open spec fn view(&self) -> Seq<char> {
        self.label@
    }
}

impl Clone for TokenStore {
    fn clone(&self) -> (r: Self)
        ensures
            r@ == self@,
    {
        TokenStore { label: self.label.clone() }
    }
}

/// The value of a credential source that may be absent.
pub open spec fn store_view(store: Option<TokenStore>) -> Option<Seq<char>> {
    match store {
        Some(s) => Some(s@),
        None => None,
    }
}

/// The adapter of one configured backend: what it was constructed with.
#[derive(Debug)]
pub struct Adapter {
    kind: ProviderKind,
    name: String,
    api_key: String,
    base_url: Option<String>,
    models: Vec<String>,
    oauth_provider: Option<String>,
    token_store: Option<TokenStore>,
}

/// The mathematical value of an [`Adapter`].
pub ghost struct AdapterView {
    pub kind: ProviderKind,
    pub name: Seq<char>,
    pub api_key: Seq<char>,
    /// The endpoint; `None` where none was declared for a family without a default
    /// here: a preset, which then uses the endpoint of its own.
    pub base_url: Option<Seq<char>>,
    pub models: Seq<Seq<char>>,
    pub oauth_provider: Option<Seq<char>>,
    pub token_store: Option<Seq<char>>,
}

impl AdapterView {
    /// Whether the backend serves `model`: whether it is among the models that the
    /// backend was declared with.
    pub open spec fn supports(self, model: Seq<char>) -> bool {
        self.models.contains(model)
    }
}

impl View for Adapter {
    type V = AdapterView;

    closed spec fn view(&self) -> AdapterView {
        AdapterView {
            kind: self.kind,
            name: self.name@,
            api_key: self.api_key@,
            base_url: self.base_url.deep_view(),
            models: self.models.deep_view(),
            oauth_provider: self.oauth_provider.deep_view(),
            token_store: store_view(self.token_store),
        }
    }
}

/// The adapter of family `kind` for an entry of the configuration. The endpoint is
/// the declared one, whatever the family, and the family's default where none is
/// declared; each family gets the OAuth entry and the credential source only if it
/// can use them.
pub open spec fn adapter_of(
    kind: ProviderKind,
    config: ConfigView,
    credential: Seq<char>,
    token_store: Option<Seq<char>>,
) -> AdapterView {
    AdapterView {
        kind,
        name: config.name,
        api_key: credential,
        base_url: match config.base_url {
            Some(declared) => Some(declared),
            None => kind.default_base_url(),
        },
        models: config.models,
        oauth_provider: if kind.takes_oauth_provider() {
            config.oauth_provider
        } else {
            None
        },
        token_store: if kind.takes_token_store() {
            token_store
        } else {
            None
        },
    }
}

/// A declared endpoint always takes precedence: the adapter of every family has the
/// endpoint that its entry declares, and the family's default only where the entry
/// declares none.
pub proof fn lemma_declared_endpoint_takes_precedence(
    kind: ProviderKind,
    config: ConfigView,
    credential: Seq<char>,
    token_store: Option<Seq<char>>,
)
    ensures
        config.base_url is Some ==> adapter_of(kind, config, credential, token_store).base_url
            == config.base_url,
        config.base_url is None ==> adapter_of(kind, config, credential, token_store).base_url
            == kind.default_base_url(),
{
}

/// The failure of an entry whose tag selects no family.
pub open spec fn unknown_type_failure(tag: Seq<char>) -> ErrorView {
    ErrorView::ConfigError("Unknown provider type: "@ + tag)
}

/// The adapter for an entry of the configuration, or the failure of its tag.
pub open spec fn constructed(
    config: ConfigView,
    credential: Seq<char>,
    token_store: Option<Seq<char>>,
) -> Result<AdapterView, ErrorView> {
    match kind_of_tag(config.provider_type) {
        Some(kind) => Ok(adapter_of(kind, config, credential, token_store)),
        None => Err(unknown_type_failure(config.provider_type)),
    }
}

/// A constructed adapter or the failure to construct one, as mathematical values.
pub open spec fn adapter_outcome(r: Result<Adapter, ProviderError>) -> Result<AdapterView, ErrorView> {
    match r {
        Ok(adapter) => Ok(adapter@),
        Err(error) => Err(error@),
    }
}

impl Adapter {
    /// Constructs the adapter for an entry of the configuration, with the credential
    /// that was resolved for it.
    pub fn construct(
        config: &ProviderConfig,
        credential: String,
        token_store: &Option<TokenStore>,
    ) -> (r: Result<Adapter, ProviderError>)
        ensures
            adapter_outcome(r) == constructed(config@, credential@, store_view(*token_store)),
    {
        let kind = match ProviderKind::from_tag(config.provider_type.as_str()) {
            Some(kind) => kind,
            None => {
                return Err(
                    ProviderError::ConfigError(
                        String::from_str("Unknown provider type: ").concat(
                            config.provider_type.as_str(),
                        ),
                    ),
                );
            },
        };
        let base_url = match &config.base_url {
            Some(declared) => Some(declared.clone()),
            None => kind.default_url(),
        };
        let oauth_provider = match kind {
            ProviderKind::OpenAi | ProviderKind::Anthropic => clone_text(&config.oauth_provider),
            _ => None,
        };
        let token_store = match kind {
            ProviderKind::OpenAi
            | ProviderKind::Anthropic
            | ProviderKind::Zai
            | ProviderKind::Minimax
            | ProviderKind::Zenmux
            | ProviderKind::KimiCoding => match token_store {
                Some(store) => Some(store.clone()),
                None => None,
            },
            _ => None,
        };
        Ok(
            Adapter {
                kind,
                name: config.name.clone(),
                api_key: credential,
                base_url,
                models: clone_texts(&config.models),
                oauth_provider,
                token_store,
            },
        )
    }

    /// The name of the backend.
    pub fn name(&self) -> (r: &str)
        ensures
            r@ == self@.name,
    {
        self.name.as_str()
    }

    /// Whether the backend serves `model`.
    pub fn supports_model(&self, model: &str) -> (r: bool)
        ensures
            r == self@.supports(model@),
    {
        let ghost declared = self@.models;
        let mut i: usize = 0;
        while i < self.models.len()
            invariant
                i <= self.models.len(),
                declared == self.models.deep_view(),
                forall|j: int| 0 <= j < i ==> declared[j] != model@,
            decreases self.models.len() - i,
        {
            if same_text(self.models[i].as_str(), model) {
                assert(declared[i as int] == model@);
                return true;
            }
            i += 1;
        }
        false
    }

    /// The family of the backend.
    pub fn kind(&self) -> (r: ProviderKind)
        ensures
            r == self@.kind,
    {
        self.kind
    }

    /// The credential that the backend authenticates with.
    pub fn api_key(&self) -> (r: &str)
        ensures
            r@ == self@.api_key,
    {
        self.api_key.as_str()
    }

    /// The endpoint of the backend; `None` where none was declared for a preset,
    /// which then uses the endpoint of its own.
    pub fn base_url(&self) -> (r: Option<&String>)
        ensures
            r.deep_view() == self@.base_url,
    {
        self.base_url.as_ref()
    }

    /// The models that the backend was declared with.
    pub fn models(&self) -> (r: &Vec<String>)
        ensures
            r.deep_view() == self@.models,
    {
        &self.models
    }

    /// The entry of the OAuth credential source that is the backend's.
    pub fn oauth_provider(&self) -> (r: Option<&String>)
        ensures
            r.deep_view() == self@.oauth_provider,
    {
        self.oauth_provider.as_ref()
    }

    /// The shared OAuth credential source, where the backend was handed it.
    pub fn token_store(&self) -> (r: Option<&TokenStore>)
        ensures
            r is Some == self@.token_store is Some,
            r matches Some(store) ==> Some(store@) == self@.token_store,
    {
        self.token_store.as_ref()
    }
}

} // verus!
