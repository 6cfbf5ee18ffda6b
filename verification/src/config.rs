//! The declaration of one backend, as the configuration gives it.
use vstd::prelude::*;

verus! {

/// How a backend authenticates its requests.
#[derive(Debug, Clone, Copy, PartialEq, Eq)]
pub enum AuthType {
    /// With a secret key, written in the configuration or kept in a file.
    ApiKey,
    /// With a token of the shared OAuth credential source.
    OAuth,
}

/// One entry of the configuration list.
#[derive(Debug, Clone, PartialEq, Eq)]
pub struct ProviderConfig {
    /// The name under which the backend is registered.
    pub name: String,
    /// The tag of the backend family, which selects the adapter.
    pub provider_type: String,
    pub auth_type: AuthType,
    /// The secret key, written inline.
    pub api_key: Option<String>,
    /// The file that holds the secret key; a leading `~/` stands for the home directory.
    pub api_key_path: Option<String>,
    /// The endpoint, where it is not the family's default.
    pub base_url: Option<String>,
    /// The models that the backend is declared to serve.
    pub models: Vec<String>,
    /// The entry of the OAuth credential source to use.
    pub oauth_provider: Option<String>,
    /// Whether the entry takes part; an entry that does not say is enabled.
    pub enabled: Option<bool>,
}

/// The mathematical value of a [`ProviderConfig`].
pub ghost struct ConfigView {
    pub name: Seq<char>,
    pub provider_type: Seq<char>,
    pub auth_type: AuthType,
    pub api_key: Option<Seq<char>>,
    pub api_key_path: Option<Seq<char>>,
    pub base_url: Option<Seq<char>>,
    pub models: Seq<Seq<char>>,
    pub oauth_provider: Option<Seq<char>>,
    pub enabled: Option<bool>,
}

impl ConfigView {
    /// Whether the entry takes part in the build.
    pub open spec fn is_enabled(self) -> bool {
        self.enabled != Some(false)
    }
}

impl View for ProviderConfig {
    type V = ConfigView;

    open spec fn view(&self) -> ConfigView {
        ConfigView {
            name: self.name@,
            provider_type: self.provider_type@,
            auth_type: self.auth_type,
            api_key: self.api_key.deep_view(),
            api_key_path: self.api_key_path.deep_view(),
            base_url: self.base_url.deep_view(),
            models: self.models.deep_view(),
            oauth_provider: self.oauth_provider.deep_view(),
            enabled: self.enabled,
        }
    }
}

impl ProviderConfig {
    /// Whether the entry takes part in the build.
    pub fn is_enabled(&self) -> (r: bool)
        ensures
            r == self@.is_enabled(),
    {
        match self.enabled {
            Some(flag) => flag,
            None => true,
        }
    }
}

/// The values of a list of entries, entry by entry.
pub open spec fn configs_view(configs: Seq<ProviderConfig>) -> Seq<ConfigView> {
    Seq::new(configs.len(), |i: int| configs[i]@)
}

} // verus!
