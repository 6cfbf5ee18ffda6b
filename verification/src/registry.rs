//! The registry of backends: built once from the configuration, read ever after.
use std::sync::Arc;
use vstd::prelude::*;
use vstd::string::StringExecFns;
use crate::adapter::{
    constructed, kind_of_tag, store_view, unknown_type_failure, Adapter, AdapterView, TokenStore,
};
use crate::config::{configs_view, ConfigView, ProviderConfig};
use crate::credential::{
    credential_of, file_consulted, lemma_credential_reads_one_file, resolve_credential,
};
use crate::error::{ErrorView, ProviderError};
use crate::files::{LocalFiles, LocalFilesView};
use crate::search::{
    distinct_names, entry_under, first_index, is_first, lemma_first_index_absent,
    lemma_first_index_found, lemma_with_entry, named, names_of, with_entry,
};
use crate::text::same_text;

verus! {

/// The backends that were configured, each under its name, and the models that are
/// routed to a backend by name.
#[derive(Debug)]
pub struct ProviderRegistry {
    providers: Vec<(String, Arc<Adapter>)>,
    model_to_provider: Vec<(String, String)>,
}

/// The mathematical value of a [`ProviderRegistry`]: its entries in the order in
/// which they were registered.
pub ghost struct RegistryView {
    /// Each backend's name with its adapter.
    pub providers: Seq<(Seq<char>, AdapterView)>,
    /// Each explicitly routed model with the name of its backend.
    pub model_to_provider: Seq<(Seq<char>, Seq<char>)>,
}

/// The property of an entry that its backend serves `model`.
pub open spec fn serving(model: Seq<char>) -> spec_fn((Seq<char>, AdapterView)) -> bool {
    |entry: (Seq<char>, AdapterView)| entry.1.supports(model)
}

impl RegistryView {
    /// The registry without any entry.
    pub open spec fn empty() -> RegistryView {
        RegistryView { providers: Seq::empty(), model_to_provider: Seq::empty() }
    }

    /// The backend registered under `name`.
    pub open spec fn provider(self, name: Seq<char>) -> Option<AdapterView> {
        entry_under(self.providers, name)
    }

    /// The backend that `model` is explicitly routed to, where it is routed to one
    /// and that one is registered.
    pub open spec fn routed_provider(self, model: Seq<char>) -> Option<AdapterView> {
        match entry_under(self.model_to_provider, model) {
            Some(name) => self.provider(name),
            None => None,
        }
    }

    /// The first backend, in the order of registration, that serves `model`.
    pub open spec fn first_serving(self, model: Seq<char>) -> Option<AdapterView> {
        match first_index(self.providers, serving(model)) {
            Some(i) => Some(self.providers[i].1),
            None => None,
        }
    }

    /// The backend that answers for `model`: the one it is explicitly routed to, else
    /// the first that serves it; the failure names the model.
    pub open spec fn provider_for_model(self, model: Seq<char>) -> Result<AdapterView, ErrorView> {
        match self.routed_provider(model) {
            Some(adapter) => Ok(adapter),
            None => match self.first_serving(model) {
                Some(adapter) => Ok(adapter),
                None => Err(ErrorView::ModelNotSupported(model)),
            },
        }
    }
}

/// The adapter that an enabled entry is registered with: constructed with the
/// credential that resolves for it. The credential is resolved first, so its
/// failure comes before that of the entry's tag.
pub open spec fn adapter_for(
    config: ConfigView,
    files: LocalFilesView,
    token_store: Option<Seq<char>>,
) -> Result<AdapterView, ErrorView> {
    match credential_of(config, files) {
        Ok(credential) => constructed(config, credential, token_store),
        Err(failure) => Err(failure),
    }
}

/// The backends that a configuration list registers, or the failure of the first
/// enabled entry that cannot be served. The entries are taken in their order; a
/// disabled entry is passed over; an entry under a name that is already taken
/// replaces the earlier one in its place.
pub open spec fn built(
    configs: Seq<ConfigView>,
    files: LocalFilesView,
    token_store: Option<Seq<char>>,
) -> Result<Seq<(Seq<char>, AdapterView)>, ErrorView>
    decreases configs.len(),
{
    if configs.len() == 0 {
        Ok(Seq::empty())
    } else {
        let config = configs.last();
        match built(configs.drop_last(), files, token_store) {
            Ok(entries) => if config.is_enabled() {
                match adapter_for(config, files, token_store) {
                    Ok(adapter) => Ok(with_entry(entries, config.name, adapter)),
                    Err(failure) => Err(failure),
                }
            } else {
                Ok(entries)
            },
            Err(failure) => Err(failure),
        }
    }
}

/// A built registry or the failure to build one, as mathematical values.
pub open spec fn registry_outcome(r: Result<ProviderRegistry, ProviderError>) -> Result<
    RegistryView,
    ErrorView,
> {
    match r {
        Ok(registry) => Ok(registry@),
        Err(error) => Err(error@),
    }
}

/// A handle to a backend or the failure to find one, as mathematical values.
pub open spec fn handle_outcome(r: Result<Arc<Adapter>, ProviderError>) -> Result<
    AdapterView,
    ErrorView,
> {
    match r {
        Ok(handle) => Ok(handle@),
        Err(error) => Err(error@),
    }
}

/// The value of a handle that may be absent.
pub open spec fn handle_view(handle: Option<Arc<Adapter>>) -> Option<AdapterView> {
    match handle {
        Some(h) => Some(h@),
        None => None,
    }
}

/// The registered backends, each by its name and the value of its adapter.
pub open spec fn providers_view(providers: Seq<(String, Arc<Adapter>)>) -> Seq<
    (Seq<char>, AdapterView),
> {
    Seq::new(providers.len(), |i: int| (providers[i].0@, providers[i].1@))
}

/// The routed models, each by its text and the name of its backend.
pub open spec fn routes_view(routes: Seq<(String, String)>) -> Seq<(Seq<char>, Seq<char>)> {
    Seq::new(routes.len(), |i: int| (routes[i].0@, routes[i].1@))
}

/// Once a prefix of the list has failed, the whole list fails the same way.
pub proof fn lemma_failure_is_final(
    configs: Seq<ConfigView>,
    n: int,
    files: LocalFilesView,
    token_store: Option<Seq<char>>,
)
    requires
        0 <= n <= configs.len(),
        built(configs.take(n), files, token_store) is Err,
    ensures
        built(configs, files, token_store) == built(configs.take(n), files, token_store),
    decreases configs.len(),
{
    if n == configs.len() {
        assert(configs.take(n) =~= configs);
    } else {
        assert(configs.drop_last().take(n) =~= configs.take(n));
        lemma_failure_is_final(configs.drop_last(), n, files, token_store);
    }
}

/// Where no model is routed explicitly, the only backend that serves a model is
/// the one that answers for it.
pub proof fn lemma_only_serving_backend_answers(registry: RegistryView, model: Seq<char>, i: int)
    requires
        registry.model_to_provider.len() == 0,
        0 <= i < registry.providers.len(),
        registry.providers[i].1.supports(model),
        forall|j: int|
            0 <= j < registry.providers.len() && j != i ==> !(#[trigger] registry.providers[j]).1.supports(
                model,
            ),
    ensures
        registry.provider_for_model(model) == Ok::<AdapterView, ErrorView>(registry.providers[i].1),
{
    lemma_first_index_absent(registry.model_to_provider, named::<Seq<char>>(model));
    lemma_first_index_found(registry.providers, serving(model), i);
}

/// Where no model is routed explicitly and no backend serves a model, looking the
/// model up fails, and the failure names the model.
pub proof fn lemma_unserved_model_fails(registry: RegistryView, model: Seq<char>)
    requires
        registry.model_to_provider.len() == 0,
        forall|j: int|
            0 <= j < registry.providers.len() ==> !(#[trigger] registry.providers[j]).1.supports(model),
    ensures
        registry.provider_for_model(model) == Err::<AdapterView, ErrorView>(
            ErrorView::ModelNotSupported(model),
        ),
{
    lemma_first_index_absent(registry.model_to_provider, named::<Seq<char>>(model));
    lemma_first_index_absent(registry.providers, serving(model));
}

/// A model that is routed to a name under which no backend is registered is
/// answered for as if it were not routed.
pub proof fn lemma_stale_route_is_passed_over(registry: RegistryView, model: Seq<char>)
    requires
        entry_under(registry.model_to_provider, model) matches Some(name) && registry.provider(name)
            is None,
    ensures
        registry.provider_for_model(model) == match registry.first_serving(model) {
            Some(adapter) => Ok::<AdapterView, ErrorView>(adapter),
            None => Err(ErrorView::ModelNotSupported(model)),
        },
{
}

/// The property of an entry of the configuration to take part in the build.
pub open spec fn enabled() -> spec_fn(ConfigView) -> bool {
    |config: ConfigView| config.is_enabled()
}

/// Whether an enabled entry of the list declares a backend under `name`.
pub open spec fn declares(configs: Seq<ConfigView>, name: Seq<char>) -> bool {
    exists|i: int| 0 <= i < configs.len() && (#[trigger] configs[i]).is_enabled() && configs[i].name == name
}

/// The empty list builds the registry without any entry, whatever else is given.
pub proof fn lemma_empty_list_builds_empty_registry(
    files: LocalFilesView,
    token_store: Option<Seq<char>>,
)
    ensures
        built(Seq::empty(), files, token_store) == Ok::<Seq<(Seq<char>, AdapterView)>, ErrorView>(
            Seq::empty(),
        ),
{
}

/// The registry without any entry knows no backend by name and has none that
/// answers for a model: looking a model up fails, and the failure names the model.
pub proof fn lemma_empty_registry_serves_nothing(text: Seq<char>)
    ensures
        RegistryView::empty().provider(text) is None,
        RegistryView::empty().provider_for_model(text) == Err::<AdapterView, ErrorView>(
            ErrorView::ModelNotSupported(text),
        ),
{
}

/// The backends of a built registry stand under distinct names.
pub proof fn lemma_built_names_distinct(
    configs: Seq<ConfigView>,
    files: LocalFilesView,
    token_store: Option<Seq<char>>,
)
    ensures
        built(configs, files, token_store) matches Ok(entries) ==> distinct_names(entries),
    decreases configs.len(),
{
    if configs.len() > 0 {
        lemma_built_names_distinct(configs.drop_last(), files, token_store);
        if let Ok(entries) = built(configs.drop_last(), files, token_store) {
            let config = configs.last();
            if let Ok(adapter) = adapter_for(config, files, token_store) {
                lemma_with_entry(entries, config.name, adapter);
            }
        }
    }
}

/// A build fails with a configuration error only.
pub proof fn lemma_build_fails_with_config_error(
    configs: Seq<ConfigView>,
    files: LocalFilesView,
    token_store: Option<Seq<char>>,
)
    ensures
        built(configs, files, token_store) matches Err(failure) ==> failure is ConfigError,
    decreases configs.len(),
{
    if configs.len() > 0 {
        lemma_build_fails_with_config_error(configs.drop_last(), files, token_store);
    }
}

/// Disabled entries do not count: the list builds what its enabled entries alone
/// build, so nothing that a disabled entry declares can fail the build or show in
/// the registry.
pub proof fn lemma_disabled_entries_do_not_count(
    configs: Seq<ConfigView>,
    files: LocalFilesView,
    token_store: Option<Seq<char>>,
)
    ensures
        built(configs, files, token_store) == built(configs.filter(enabled()), files, token_store),
    decreases configs.len(),
{
    reveal(Seq::filter);
    if configs.len() > 0 {
        lemma_disabled_entries_do_not_count(configs.drop_last(), files, token_store);
        let kept = configs.drop_last().filter(enabled());
        if configs.last().is_enabled() {
            assert(kept.push(configs.last()).drop_last() =~= kept);
        }
    }
}

/// A built registry knows a backend by a name exactly when an enabled entry of the
/// list declares one under that name.
pub proof fn lemma_registered_iff_declared(
    configs: Seq<ConfigView>,
    files: LocalFilesView,
    token_store: Option<Seq<char>>,
    name: Seq<char>,
)
    requires
        built(configs, files, token_store) is Ok,
    ensures
        entry_under(built(configs, files, token_store)->Ok_0, name) is Some <==> declares(
            configs,
            name,
        ),
    decreases configs.len(),
{
    if configs.len() == 0 {
        lemma_first_index_absent(Seq::<(Seq<char>, AdapterView)>::empty(), named(name));
    } else {
        let before = configs.drop_last();
        let config = configs.last();
        let entries = built(before, files, token_store)->Ok_0;
        lemma_registered_iff_declared(before, files, token_store, name);
        lemma_built_names_distinct(before, files, token_store);
        if declares(before, name) {
            let i = choose|i: int|
                0 <= i < before.len() && (#[trigger] before[i]).is_enabled() && before[i].name == name;
            assert(configs[i] == before[i]);
        }
        if declares(configs, name) && !(config.is_enabled() && config.name == name) {
            let i = choose|i: int|
                0 <= i < configs.len() && (#[trigger] configs[i]).is_enabled() && configs[i].name
                    == name;
            assert(before[i] == configs[i]);
        }
        if config.is_enabled() {
            let adapter = adapter_for(config, files, token_store)->Ok_0;
            lemma_with_entry(entries, config.name, adapter);
        }
    }
}

/// An enabled entry whose name no later enabled entry takes is registered under
/// its name with the adapter that was constructed for it.
pub proof fn lemma_declared_adapter_is_registered(
    configs: Seq<ConfigView>,
    files: LocalFilesView,
    token_store: Option<Seq<char>>,
    i: int,
)
    requires
        built(configs, files, token_store) is Ok,
        0 <= i < configs.len(),
        configs[i].is_enabled(),
        forall|j: int|
            i < j < configs.len() && (#[trigger] configs[j]).is_enabled() ==> configs[j].name
                != configs[i].name,
    ensures
        adapter_for(configs[i], files, token_store) is Ok,
        entry_under(built(configs, files, token_store)->Ok_0, configs[i].name) == Some(
            adapter_for(configs[i], files, token_store)->Ok_0,
        ),
    decreases configs.len(),
{
    let before = configs.drop_last();
    let config = configs.last();
    let entries = built(before, files, token_store)->Ok_0;
    lemma_built_names_distinct(before, files, token_store);
    if i == configs.len() - 1 {
        lemma_with_entry(entries, config.name, adapter_for(config, files, token_store)->Ok_0);
    } else {
        assert forall|j: int| i < j < before.len() && (#[trigger] before[j]).is_enabled() implies before[j].name
            != before[i].name by {
            assert(before[j] == configs[j]);
        }
        lemma_declared_adapter_is_registered(before, files, token_store, i);
        if config.is_enabled() {
            lemma_with_entry(entries, config.name, adapter_for(config, files, token_store)->Ok_0);
        }
    }
}

/// The build is all or nothing: there is a registry exactly when every enabled
/// entry of the list can be served.
pub proof fn lemma_build_succeeds_iff_all_served(
    configs: Seq<ConfigView>,
    files: LocalFilesView,
    token_store: Option<Seq<char>>,
)
    ensures
        built(configs, files, token_store) is Ok <==> forall|i: int|
            0 <= i < configs.len() && (#[trigger] configs[i]).is_enabled() ==> adapter_for(
                configs[i],
                files,
                token_store,
            ) is Ok,
    decreases configs.len(),
{
    if configs.len() > 0 {
        let before = configs.drop_last();
        lemma_build_succeeds_iff_all_served(before, files, token_store);
        if built(configs, files, token_store) is Ok {
            assert forall|i: int| 0 <= i < configs.len() && (#[trigger] configs[i]).is_enabled() implies adapter_for(
                configs[i],
                files,
                token_store,
            ) is Ok by {
                if i < before.len() {
                    assert(before[i] == configs[i]);
                }
            }
        } else if built(before, files, token_store) is Err {
            let i = choose|i: int|
                0 <= i < before.len() && (#[trigger] before[i]).is_enabled() && adapter_for(
                    before[i],
                    files,
                    token_store,
                ) is Err;
            assert(configs[i] == before[i]);
        } else {
            assert(configs[configs.len() - 1] == configs.last());
        }
    }
}

/// The build fails fast: where the entries before it are served, an enabled entry
/// that cannot be served fails the build with its own failure, whatever follows it.
pub proof fn lemma_first_failure_is_reported(
    configs: Seq<ConfigView>,
    files: LocalFilesView,
    token_store: Option<Seq<char>>,
    i: int,
)
    requires
        0 <= i < configs.len(),
        configs[i].is_enabled(),
        built(configs.take(i), files, token_store) is Ok,
        adapter_for(configs[i], files, token_store) is Err,
    ensures
        built(configs, files, token_store) == Err::<Seq<(Seq<char>, AdapterView)>, ErrorView>(
            adapter_for(configs[i], files, token_store)->Err_0,
        ),
{
    assert(configs.take(i + 1).drop_last() =~= configs.take(i));
    lemma_failure_is_final(configs, i + 1, files, token_store);
}

/// An enabled entry whose tag selects no backend family fails the build: there is
/// no registry, whatever the other entries declare.
pub proof fn lemma_unknown_type_fails_build(
    configs: Seq<ConfigView>,
    files: LocalFilesView,
    token_store: Option<Seq<char>>,
    i: int,
)
    requires
        0 <= i < configs.len(),
        configs[i].is_enabled(),
        kind_of_tag(configs[i].provider_type) is None,
    ensures
        built(configs, files, token_store) is Err,
{
    lemma_failure_is_final(configs, i + 1, files, token_store);
}

/// Where the entries before it are served and its own credential resolves, an
/// enabled entry whose tag selects no backend family fails the build with the
/// configuration error that names the tag.
pub proof fn lemma_unknown_type_is_reported(
    configs: Seq<ConfigView>,
    files: LocalFilesView,
    token_store: Option<Seq<char>>,
    i: int,
)
    requires
        0 <= i < configs.len(),
        configs[i].is_enabled(),
        kind_of_tag(configs[i].provider_type) is None,
        built(configs.take(i), files, token_store) is Ok,
        credential_of(configs[i], files) is Ok,
    ensures
        built(configs, files, token_store) == Err::<Seq<(Seq<char>, AdapterView)>, ErrorView>(
            unknown_type_failure(configs[i].provider_type),
        ),
{
    assert(configs.take(i + 1).drop_last() =~= configs.take(i));
    lemma_failure_is_final(configs, i + 1, files, token_store);
}

/// The build depends on the home directory and on the files that it consults for
/// the entries, and on nothing else that is known of the local files.
pub proof fn lemma_build_reads_consulted_files(
    configs: Seq<ConfigView>,
    files: LocalFilesView,
    others: LocalFilesView,
    token_store: Option<Seq<char>>,
)
    requires
        files.home == others.home,
        forall|i: int|
            0 <= i < configs.len() ==> (file_consulted(#[trigger] configs[i], files.home) matches Some(
                location,
            ) ==> files.content_of(location) == others.content_of(location)),
    ensures
        built(configs, files, token_store) == built(configs, others, token_store),
    decreases configs.len(),
{
    if configs.len() > 0 {
        let before = configs.drop_last();
        assert forall|i: int| 0 <= i < before.len() implies (file_consulted(
            #[trigger] before[i],
            files.home,
        ) matches Some(location) ==> files.content_of(location) == others.content_of(location)) by {
            assert(before[i] == configs[i]);
        }
        lemma_build_reads_consulted_files(before, files, others, token_store);
        let config = configs.last();
        if config.is_enabled() {
            lemma_credential_reads_one_file(config, files, others);
        }
    }
}

/// Calls `Arc::clone`, which makes one more handle to the same adapter.
#[verifier::external_body]
fn share(handle: &Arc<Adapter>) -> (r: Arc<Adapter>)
    ensures
        r == *handle,
{
    Arc::clone(handle)
}

/// Puts `adapter` under `name`: in the place of the entry under that name, and at
/// the end where there is none.
fn register(providers: &mut Vec<(String, Arc<Adapter>)>, name: String, adapter: Arc<Adapter>)
    ensures
        providers_view(final(providers)@) == with_entry(
            providers_view(old(providers)@),
            name@,
            adapter@,
        ),
{
    let ghost before = providers_view(providers@);
    let mut i: usize = 0;
    while i < providers.len()
        invariant
            i <= providers.len(),
            providers@ == old(providers)@,
            before == providers_view(providers@),
            forall|j: int| 0 <= j < i ==> !named::<AdapterView>(name@)(#[trigger] before[j]),
        decreases providers.len() - i,
    {
        if same_text(providers[i].0.as_str(), name.as_str()) {
            proof {
                lemma_first_index_found(before, named(name@), i as int);
            }
            providers.set(i, (name, adapter));
            return;
        }
        i += 1;
    }
    proof {
        lemma_first_index_absent(before, named::<AdapterView>(name@));
    }
    providers.push((name, adapter));
}

impl View for ProviderRegistry {
    type V = RegistryView;

    closed spec fn view(&self) -> RegistryView {
        RegistryView {
            providers: providers_view(self.providers@),
            model_to_provider: routes_view(self.model_to_provider@),
        }
    }
}

impl ProviderRegistry {
    #[verifier::type_invariant]
    spec fn well_formed(self) -> bool {
        &&& distinct_names(providers_view(self.providers@))
        &&& distinct_names(routes_view(self.model_to_provider@))
    }

    /// The registry without any entry.
    pub fn new() -> (r: Self)
        ensures
            r@ == RegistryView::empty(),
    {
        let r = ProviderRegistry { providers: Vec::new(), model_to_provider: Vec::new() };
        assert(r@.providers =~= Seq::empty());
        assert(r@.model_to_provider =~= Seq::empty());
        r
    }

    /// Builds the registry of a configuration list. Each enabled entry, in the order
    /// of the list, has its credential resolved from the entry and from what `files`
    /// knows, and its adapter constructed; the first entry that fails ends the build
    /// with its failure. No model is routed explicitly.
    pub fn from_configs(
        configs: &[ProviderConfig],
        files: &LocalFiles,
        token_store: Option<TokenStore>,
    ) -> (r: Result<Self, ProviderError>)
        ensures
            match built(configs_view(configs@), files@, store_view(token_store)) {
                Ok(entries) => registry_outcome(r) == Ok::<RegistryView, ErrorView>(
                    RegistryView { providers: entries, model_to_provider: Seq::empty() },
                ),
                Err(failure) => registry_outcome(r) == Err::<RegistryView, ErrorView>(failure),
            },
    {
        let ghost all = configs_view(configs@);
        let ghost store = store_view(token_store);
        let mut providers: Vec<(String, Arc<Adapter>)> = Vec::new();
        let mut i: usize = 0;
        assert(providers_view(providers@) =~= Seq::empty());
        while i < configs.len()
            invariant
                i <= configs.len(),
                all == configs_view(configs@),
                store == store_view(token_store),
                built(all.take(i as int), files@, store) == Ok::<
                    Seq<(Seq<char>, AdapterView)>,
                    ErrorView,
                >(providers_view(providers@)),
                distinct_names(providers_view(providers@)),
            decreases configs.len() - i,
        {
            let config = &configs[i];
            proof {
                assert(all.take(i + 1).drop_last() =~= all.take(i as int));
            }
            if config.is_enabled() {
                let credential = match resolve_credential(config, files) {
                    Ok(credential) => credential,
                    Err(failure) => {
                        proof {
                            lemma_failure_is_final(all, i + 1, files@, store);
                        }
                        return Err(failure);
                    },
                };
                let adapter = match Adapter::construct(config, credential, &token_store) {
                    Ok(adapter) => adapter,
                    Err(failure) => {
                        proof {
                            lemma_failure_is_final(all, i + 1, files@, store);
                        }
                        return Err(failure);
                    },
                };
                proof {
                    lemma_with_entry(providers_view(providers@), config@.name, adapter@);
                }
                register(&mut providers, config.name.clone(), Arc::new(adapter));
            }
            i += 1;
        }
        assert(all.take(configs.len() as int) =~= all);
        let r = ProviderRegistry { providers, model_to_provider: Vec::new() };
        assert(r@.model_to_provider =~= Seq::empty());
        Ok(r)
    }

    /// The backend registered under `name`, if there is one.
    pub fn get_provider(&self, name: &str) -> (r: Option<Arc<Adapter>>)
        ensures
            handle_view(r) == self@.provider(name@),
    {
        let ghost entries = providers_view(self.providers@);
        let mut i: usize = 0;
        while i < self.providers.len()
            invariant
                i <= self.providers.len(),
                entries == providers_view(self.providers@),
                forall|j: int| 0 <= j < i ==> !named::<AdapterView>(name@)(#[trigger] entries[j]),
            decreases self.providers.len() - i,
        {
            if same_text(self.providers[i].0.as_str(), name) {
                proof {
                    lemma_first_index_found(entries, named(name@), i as int);
                }
                return Some(share(&self.providers[i].1));
            }
            i += 1;
        }
        proof {
            lemma_first_index_absent(entries, named::<AdapterView>(name@));
        }
        None
    }

    /// The name of the backend that `model` is explicitly routed to.
    fn routed_name(&self, model: &str) -> (r: Option<&String>)
        ensures
            r.deep_view() == entry_under(self@.model_to_provider, model@),
    {
        let ghost routes = routes_view(self.model_to_provider@);
        let mut i: usize = 0;
        while i < self.model_to_provider.len()
            invariant
                i <= self.model_to_provider.len(),
                routes == routes_view(self.model_to_provider@),
                forall|j: int| 0 <= j < i ==> !named::<Seq<char>>(model@)(#[trigger] routes[j]),
            decreases self.model_to_provider.len() - i,
        {
            if same_text(self.model_to_provider[i].0.as_str(), model) {
                proof {
                    lemma_first_index_found(routes, named(model@), i as int);
                }
                return Some(&self.model_to_provider[i].1);
            }
            i += 1;
        }
        proof {
            lemma_first_index_absent(routes, named::<Seq<char>>(model@));
        }
        None
    }

    /// The backend that answers for `model`: the one it is explicitly routed to,
    /// where that one is registered; else the first registered backend that serves
    /// the model.
    pub fn get_provider_for_model(&self, model: &str) -> (r: Result<Arc<Adapter>, ProviderError>)
        ensures
            handle_outcome(r) == self@.provider_for_model(model@),
    {
        if let Some(name) = self.routed_name(model) {
            if let Some(handle) = self.get_provider(name.as_str()) {
                return Ok(handle);
            }
        }
        let ghost entries = providers_view(self.providers@);
        let mut i: usize = 0;
        while i < self.providers.len()
            invariant
                i <= self.providers.len(),
                entries == providers_view(self.providers@),
                self@.routed_provider(model@) is None,
                forall|j: int| 0 <= j < i ==> !serving(model@)(#[trigger] entries[j]),
            decreases self.providers.len() - i,
        {
            if self.providers[i].1.supports_model(model) {
                proof {
                    lemma_first_index_found(entries, serving(model@), i as int);
                }
                return Ok(share(&self.providers[i].1));
            }
            i += 1;
        }
        proof {
            lemma_first_index_absent(entries, serving(model@));
        }
        Err(ProviderError::ModelNotSupported(String::from_str(model)))
    }

    /// The models that are routed explicitly, in the order of their registration.
    pub fn list_models(&self) -> (r: Vec<String>)
        ensures
            r.deep_view() == names_of(self@.model_to_provider),
    {
        let mut models: Vec<String> = Vec::new();
        let mut i: usize = 0;
        while i < self.model_to_provider.len()
            invariant
                i <= self.model_to_provider.len(),
                models@.len() == i,
                forall|j: int| 0 <= j < i ==> models@[j]@ == self.model_to_provider@[j].0@,
            decreases self.model_to_provider.len() - i,
        {
            models.push(self.model_to_provider[i].0.clone());
            i += 1;
        }
        models
    }

    /// The names of the registered backends, in the order of their registration.
    pub fn list_providers(&self) -> (r: Vec<String>)
        ensures
            r.deep_view() == names_of(self@.providers),
    {
        let mut names: Vec<String> = Vec::new();
        let mut i: usize = 0;
        while i < self.providers.len()
            invariant
                i <= self.providers.len(),
                names@.len() == i,
                forall|j: int| 0 <= j < i ==> names@[j]@ == self.providers@[j].0@,
            decreases self.providers.len() - i,
        {
            names.push(self.providers[i].0.clone());
            i += 1;
        }
        names
    }
}

impl Default for ProviderRegistry {
    fn default() -> (r: Self)
        ensures
            r@ == RegistryView::empty(),
    {
        Self::new()
    }
}

} // verus!
