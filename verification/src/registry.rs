//! The registry: which factory builds which kind of source, provider and store.
//!
//! Factories are registered under a type tag. A configuration is resolved to
//! the factory of its tag: `cloudflare`, `netlink`, `http`, `file`, `memory`,
//! or, for a custom variant, the factory that the configuration names.

use crate::config::{IpSourceConfig, ProviderConfig, StateStoreConfig};
use crate::error::{Error, ErrorView};
use crate::table::{texts_of, NameTable};
use crate::text::join;
use vstd::prelude::*;

verus! {

/// Three tables of factories: for providers, for IP sources and for state stores.
///
/// The registry holds the factories and finds them; what a factory builds, and
/// how, is the factory's business.
#[derive(Debug)]
pub struct ProviderRegistry<P, I, S> {
    providers: NameTable<P>,
    ip_sources: NameTable<I>,
    state_stores: NameTable<S>,
}

impl<P, I, S> ProviderRegistry<P, I, S> {
    /// Whether the registry keeps its invariant. Every constructor establishes it
    /// and every method keeps it.
    pub closed spec fn wf(&self) -> bool {
        &&& self.providers.wf()
        &&& self.ip_sources.wf()
        &&& self.state_stores.wf()
    }

    /// The provider factories by tag.
    pub closed spec fn providers(&self) -> Map<Seq<char>, P> {
        self.providers@
    }

    /// The IP source factories by tag.
    pub closed spec fn ip_sources(&self) -> Map<Seq<char>, I> {
        self.ip_sources@
    }

    /// The state store factories by tag.
    pub closed spec fn state_stores(&self) -> Map<Seq<char>, S> {
        self.state_stores@
    }

    /// An empty registry.
    pub fn new() -> (r: Self)
        ensures
            r.wf(),
            r.providers() == Map::<Seq<char>, P>::empty(),
            r.ip_sources() == Map::<Seq<char>, I>::empty(),
            r.state_stores() == Map::<Seq<char>, S>::empty(),
    {
        ProviderRegistry {
            providers: NameTable::new(),
            ip_sources: NameTable::new(),
            state_stores: NameTable::new(),
        }
    }

    /// Registers `factory` for providers of the type `name`, in place of any
    /// factory registered for it before.
    pub fn register_provider(&mut self, name: &str, factory: P)
        requires
            old(self).wf(),
        ensures
            final(self).wf(),
            final(self).providers() == old(self).providers().insert(name@, factory),
            final(self).ip_sources() == old(self).ip_sources(),
            final(self).state_stores() == old(self).state_stores(),
    {
        self.providers.insert(name, factory);
    }

    /// Registers `factory` for IP sources of the type `name`, in place of any
    /// factory registered for it before.
    pub fn register_ip_source(&mut self, name: &str, factory: I)
        requires
            old(self).wf(),
        ensures
            final(self).wf(),
            final(self).ip_sources() == old(self).ip_sources().insert(name@, factory),
            final(self).providers() == old(self).providers(),
            final(self).state_stores() == old(self).state_stores(),
    {
        self.ip_sources.insert(name, factory);
    }

    /// Registers `factory` for state stores of the type `name`, in place of any
    /// factory registered for it before.
    pub fn register_state_store(&mut self, name: &str, factory: S)
        requires
            old(self).wf(),
        ensures
            final(self).wf(),
            final(self).state_stores() == old(self).state_stores().insert(name@, factory),
            final(self).providers() == old(self).providers(),
            final(self).ip_sources() == old(self).ip_sources(),
    {
        self.state_stores.insert(name, factory);
    }

    /// The factory that builds the provider for `config`: the one registered under
    /// the configuration's tag. An unknown tag is a configuration error.
    pub fn create_provider(&self, config: &ProviderConfig) -> (r: Result<&P, Error>)
        requires
            self.wf(),
        ensures
            r is Ok <==> self.providers().dom().contains(config.spec_type_tag()),
            r is Ok ==> *r->Ok_0 == self.providers()[config.spec_type_tag()],
            r is Err ==> r->Err_0@ == ErrorView::Config(
                "Unknown provider type: "@ + config.spec_type_tag(),
            ),
    {
        let tag = config.type_tag();
        match self.providers.get(tag) {
            Some(factory) => Ok(factory),
            None => Err(Error::Config(join("Unknown provider type: ", tag))),
        }
    }

    /// The factory that builds the IP source for `config`: the one registered
    /// under the configuration's tag. An unknown tag is a configuration error.
    pub fn create_ip_source(&self, config: &IpSourceConfig) -> (r: Result<&I, Error>)
        requires
            self.wf(),
        ensures
            r is Ok <==> self.ip_sources().dom().contains(config.spec_type_tag()),
            r is Ok ==> *r->Ok_0 == self.ip_sources()[config.spec_type_tag()],
            r is Err ==> r->Err_0@ == ErrorView::Config(
                "Unknown IP source type: "@ + config.spec_type_tag(),
            ),
    {
        let tag = config.type_tag();
        match self.ip_sources.get(tag) {
            Some(factory) => Ok(factory),
            None => Err(Error::Config(join("Unknown IP source type: ", tag))),
        }
    }

    /// The factory that builds the state store for `config`: the one registered
    /// under the configuration's tag. An unknown tag is a configuration error.
    pub fn create_state_store(&self, config: &StateStoreConfig) -> (r: Result<&S, Error>)
        requires
            self.wf(),
        ensures
            r is Ok <==> self.state_stores().dom().contains(config.spec_type_tag()),
            r is Ok ==> *r->Ok_0 == self.state_stores()[config.spec_type_tag()],
            r is Err ==> r->Err_0@ == ErrorView::Config(
                "Unknown state store type: "@ + config.spec_type_tag(),
            ),
    {
        let tag = config.type_tag();
        match self.state_stores.get(tag) {
            Some(factory) => Ok(factory),
            None => Err(Error::Config(join("Unknown state store type: ", tag))),
        }
    }

    /// The tags for which a provider factory is registered, each once.
    pub fn list_providers(&self) -> (names: Vec<String>)
        requires
            self.wf(),
        ensures
            texts_of(names@).no_duplicates(),
            texts_of(names@).to_set() == self.providers().dom(),
    {
        self.providers.list()
    }

    /// The tags for which an IP source factory is registered, each once.
    pub fn list_ip_sources(&self) -> (names: Vec<String>)
        requires
            self.wf(),
        ensures
            texts_of(names@).no_duplicates(),
            texts_of(names@).to_set() == self.ip_sources().dom(),
    {
        self.ip_sources.list()
    }

    /// The tags for which a state store factory is registered, each once.
    pub fn list_state_stores(&self) -> (names: Vec<String>)
        requires
            self.wf(),
        ensures
            texts_of(names@).no_duplicates(),
            texts_of(names@).to_set() == self.state_stores().dom(),
    {
        self.state_stores.list()
    }

    /// Whether a provider factory is registered under `name`.
    pub fn has_provider(&self, name: &str) -> (r: bool)
        requires
            self.wf(),
        ensures
            r == self.providers().dom().contains(name@),
    {
        self.providers.contains(name)
    }

    /// Whether an IP source factory is registered under `name`.
    pub fn has_ip_source(&self, name: &str) -> (r: bool)
        requires
            self.wf(),
        ensures
            r == self.ip_sources().dom().contains(name@),
    {
        self.ip_sources.contains(name)
    }

    /// Whether a state store factory is registered under `name`.
    pub fn has_state_store(&self, name: &str) -> (r: bool)
        requires
            self.wf(),
        ensures
            r == self.state_stores().dom().contains(name@),
    {
        self.state_stores.contains(name)
    }
}

} // verus!
