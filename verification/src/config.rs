//! The configuration of a pipeline, and the rules it must meet before an engine is built.

use crate::error::{Error, ErrorView};
use vstd::prelude::*;

verus! {

/// Which address families a source watches.
#[derive(Clone, Copy, Debug, PartialEq, Eq, Hash, Structural)]
pub enum IpVersion {
    /// IPv4 only.
    V4,
    /// IPv6 only.
    V6,
    /// Both families.
    Both,
}

/// The type of a managed DNS record.
#[derive(Clone, Copy, Debug, PartialEq, Eq, Hash, Structural)]
pub enum RecordType {
    /// An `A` record (IPv4).
    A,
    /// An `AAAA` record (IPv6).
    Aaaa,
    /// Derived from the family of the observed address.
    Auto,
}

/// Where the current address comes from.
#[derive(Clone, Debug)]
pub enum IpSourceConfig {
    /// Kernel routing events.
    Netlink {
        /// The interface to watch; every interface if absent.
        interface: Option<String>,
        /// The families to watch; both if absent.
        version: Option<IpVersion>,
    },
    /// An HTTP service that answers with the caller's address.
    Http {
        /// The service's URL.
        url: String,
        /// Seconds between two requests.
        interval_secs: u64,
    },
    /// A source built by a registered factory.
    Custom {
        /// The name the factory is registered under.
        factory: String,
        /// The factory's own configuration as a JSON document; `None` stands for `null`.
        config: Option<String>,
    },
}

/// Which DNS provider applies the updates.
///
/// The type has no debug representation, so that the token cannot find its way
/// into a log.
#[derive(Clone)]
pub enum ProviderConfig {
    /// Cloudflare.
    Cloudflare {
        /// The API token.
        api_token: String,
        /// The zone, if it is not to be looked up.
        zone_id: Option<String>,
        /// The account, if any.
        account_id: Option<String>,
    },
    /// A provider built by a registered factory.
    Custom {
        /// The name the factory is registered under.
        factory: String,
        /// The factory's own configuration as a JSON document; `None` stands for `null`.
        config: Option<String>,
    },
}

/// Where the last applied addresses are kept.
#[derive(Clone, Debug)]
pub enum StateStoreConfig {
    /// A JSON file.
    File {
        /// The file's path.
        path: String,
    },
    /// Memory only: a restart forgets the state.
    Memory,
    /// A store built by a registered factory.
    Custom {
        /// The name the factory is registered under.
        factory: String,
        /// The factory's own configuration as a JSON document; `None` stands for `null`.
        config: Option<String>,
    },
}

/// One managed DNS record.
#[derive(Debug)]
pub struct RecordConfig {
    /// The fully qualified name.
    pub name: String,
    /// The record's type.
    pub record_type: RecordType,
    /// Whether the record is updated at all.
    pub enabled: bool,
}

/// A [`RecordConfig`] with its name as a character sequence.
pub struct RecordConfigView {
    pub name: Seq<char>,
    pub record_type: RecordType,
    pub enabled: bool,
}

/// The engine's policies.
#[derive(Clone, Debug)]
pub struct EngineConfig {
    /// How often a failed update is tried again; 0 disables retries.
    pub max_retries: usize,
    /// Seconds to wait between two attempts.
    pub retry_delay_secs: u64,
    /// Seconds to wait before the first probe of the source.
    pub startup_delay_secs: u64,
    /// The least number of seconds between two updates of one record; 0 disables the limit.
    pub min_update_interval_secs: u64,
    /// How many events the observability channel holds before it drops new ones.
    pub event_channel_capacity: usize,
    /// Free-form labels, handed through untouched.
    pub metadata: Vec<(String, String)>,
}

/// The whole configuration.
///
/// The type has no debug representation, so that the provider's token cannot find
/// its way into a log.
pub struct DdnsConfig {
    /// Where the current address comes from.
    pub ip_source: IpSourceConfig,
    /// Which provider applies the updates.
    pub provider: ProviderConfig,
    /// Where state is kept.
    pub state_store: StateStoreConfig,
    /// The managed records, in the order in which they are updated.
    pub records: Vec<RecordConfig>,
    /// The engine's policies.
    pub engine: EngineConfig,
}

/// The record type a record gets when none is configured.
pub fn default_record_type() -> (t: RecordType)
    ensures
        t == RecordType::Auto,
{
    RecordType::Auto
}

/// Whether a record is enabled when nothing is configured.
pub fn default_enabled() -> (b: bool)
    ensures
        b,
{
    true
}

/// The default number of retries.
pub fn default_max_retries() -> (n: usize)
    ensures
        n == 3,
{
    3
}

/// The default delay between two attempts, in seconds.
pub fn default_retry_delay_secs() -> (n: u64)
    ensures
        n == 5,
{
    5
}

/// The default least interval between two updates of one record, in seconds.
pub fn default_min_update_interval_secs() -> (n: u64)
    ensures
        n == 60,
{
    60
}

/// The default capacity of the observability channel.
pub fn default_event_channel_capacity() -> (n: usize)
    ensures
        n == 1000,
{
    1000
}

/// The default startup delay, in seconds.
pub fn default_startup_delay_secs() -> (n: u64)
    ensures
        n == 0,
{
    0
}

impl View for RecordConfig {
    type V = RecordConfigView;

    open spec fn view(&self) -> RecordConfigView {
        RecordConfigView { name: self.name@, record_type: self.record_type, enabled: self.enabled }
    }
}

impl Clone for RecordConfig {
    fn clone(&self) -> (r: RecordConfig)
        ensures
            r == *self,
    {
        RecordConfig {
            name: self.name.clone(),
            record_type: self.record_type,
            enabled: self.enabled,
        }
    }
}

impl RecordConfig {
    /// An enabled record named `name` whose type follows the observed address.
    pub fn new(name: &str) -> (r: RecordConfig)
        ensures
            r@ == (RecordConfigView { name: name@, record_type: RecordType::Auto, enabled: true }),
    {
        RecordConfig { name: String::from_str(name), record_type: RecordType::Auto, enabled: true }
    }

    /// The same record with the type `record_type`.
    pub fn with_record_type(self, record_type: RecordType) -> (r: RecordConfig)
        ensures
            r@ == (RecordConfigView { record_type, ..self@ }),
    {
        RecordConfig { name: self.name, record_type, enabled: self.enabled }
    }

    /// The same record, enabled or disabled.
    pub fn with_enabled(self, enabled: bool) -> (r: RecordConfig)
        ensures
            r@ == (RecordConfigView { enabled, ..self@ }),
    {
        RecordConfig { name: self.name, record_type: self.record_type, enabled }
    }
}

impl Default for EngineConfig {
    fn default() -> (c: EngineConfig)
        ensures
            c.max_retries == 3,
            c.retry_delay_secs == 5,
            c.startup_delay_secs == 0,
            c.min_update_interval_secs == 60,
            c.event_channel_capacity == 1000,
            c.metadata@.len() == 0,
    {
        EngineConfig {
            max_retries: default_max_retries(),
            retry_delay_secs: default_retry_delay_secs(),
            startup_delay_secs: default_startup_delay_secs(),
            min_update_interval_secs: default_min_update_interval_secs(),
            event_channel_capacity: default_event_channel_capacity(),
            metadata: Vec::new(),
        }
    }
}

impl Default for IpSourceConfig {
    fn default() -> (c: IpSourceConfig)
        ensures
            c == (IpSourceConfig::Netlink { interface: None, version: None }),
    {
        IpSourceConfig::Netlink { interface: None, version: None }
    }
}

impl Default for ProviderConfig {
    fn default() -> (c: ProviderConfig)
        ensures
            c is Cloudflare,
            c->api_token@.len() == 0,
            c->zone_id is None,
            c->account_id is None,
    {
        ProviderConfig::Cloudflare { api_token: String::new(), zone_id: None, account_id: None }
    }
}

impl Default for StateStoreConfig {
    fn default() -> (c: StateStoreConfig)
        ensures
            c == StateStoreConfig::Memory,
    {
        StateStoreConfig::Memory
    }
}

impl IpSourceConfig {
    /// Why the source's configuration is refused, if it is.
    ///
    /// An HTTP source needs a URL and a positive interval, in that order; a custom
    /// source needs the name of its factory. A netlink source is always accepted.
    pub open spec fn rejection(&self) -> Option<Seq<char>> {
        match self {
            IpSourceConfig::Http { url, interval_secs } => {
                if url@.len() == 0 {
                    Some("HTTP IP source URL cannot be empty"@)
                } else if *interval_secs == 0 {
                    Some("HTTP IP source interval must be > 0"@)
                } else {
                    None
                }
            },
            IpSourceConfig::Custom { factory, config } => {
                if factory@.len() == 0 {
                    Some("Custom IP source factory cannot be empty"@)
                } else {
                    None
                }
            },
            IpSourceConfig::Netlink { interface, version } => None,
        }
    }

    /// The tag under which the factory for this source is registered.
    pub open spec fn spec_type_tag(&self) -> Seq<char> {
        match self {
            IpSourceConfig::Netlink { interface, version } => "netlink"@,
            IpSourceConfig::Http { url, interval_secs } => "http"@,
            IpSourceConfig::Custom { factory, config } => factory@,
        }
    }

    /// Checks the source's configuration.
    pub fn validate(&self) -> (r: Result<(), Error>)
        ensures
            r is Ok <==> self.rejection() is None,
            r is Err ==> r->Err_0@ == ErrorView::Config(self.rejection()->0),
    {
        match self {
            IpSourceConfig::Http { url, interval_secs } => {
                if url.as_str().unicode_len() == 0 {
                    return Err(Error::config("HTTP IP source URL cannot be empty"));
                }
                if *interval_secs == 0 {
                    return Err(Error::config("HTTP IP source interval must be > 0"));
                }
                Ok(())
            },
            IpSourceConfig::Custom { factory, config: _ } => {
                if factory.as_str().unicode_len() == 0 {
                    return Err(Error::config("Custom IP source factory cannot be empty"));
                }
                Ok(())
            },
            IpSourceConfig::Netlink { .. } => Ok(()),
        }
    }

    /// The tag under which the factory for this source is registered:
    /// `netlink`, `http`, or the factory named by a custom source.
    pub fn type_tag(&self) -> (name: &str)
        ensures
            name@ == self.spec_type_tag(),
    {
        match self {
            IpSourceConfig::Netlink { .. } => "netlink",
            IpSourceConfig::Http { .. } => "http",
            IpSourceConfig::Custom { factory, config: _ } => factory.as_str(),
        }
    }
}

impl ProviderConfig {
    /// Why the provider's configuration is refused, if it is.
    ///
    /// Cloudflare needs a token; a custom provider needs the name of its factory
    /// and a configuration that is not `null`, in that order.
    pub open spec fn rejection(&self) -> Option<Seq<char>> {
        match self {
            ProviderConfig::Cloudflare { api_token, zone_id, account_id } => {
                if api_token@.len() == 0 {
                    Some("Cloudflare API token cannot be empty"@)
                } else {
                    None
                }
            },
            ProviderConfig::Custom { factory, config } => {
                if factory@.len() == 0 {
                    Some("Custom provider factory cannot be empty"@)
                } else if config is None {
                    Some("Custom provider config cannot be null"@)
                } else {
                    None
                }
            },
        }
    }

    /// The tag under which the factory for this provider is registered.
    pub open spec fn spec_type_tag(&self) -> Seq<char> {
        match self {
            ProviderConfig::Cloudflare { api_token, zone_id, account_id } => "cloudflare"@,
            ProviderConfig::Custom { factory, config } => factory@,
        }
    }

    /// Checks the provider's configuration.
    pub fn validate(&self) -> (r: Result<(), Error>)
        ensures
            r is Ok <==> self.rejection() is None,
            r is Err ==> r->Err_0@ == ErrorView::Config(self.rejection()->0),
    {
        match self {
            ProviderConfig::Cloudflare { api_token, .. } => {
                if api_token.as_str().unicode_len() == 0 {
                    return Err(Error::config("Cloudflare API token cannot be empty"));
                }
                Ok(())
            },
            ProviderConfig::Custom { factory, config } => {
                if factory.as_str().unicode_len() == 0 {
                    return Err(Error::config("Custom provider factory cannot be empty"));
                }
                if config.is_none() {
                    return Err(Error::config("Custom provider config cannot be null"));
                }
                Ok(())
            },
        }
    }

    /// The tag under which the factory for this provider is registered:
    /// `cloudflare`, or the factory named by a custom provider.
    pub fn type_tag(&self) -> (name: &str)
        ensures
            name@ == self.spec_type_tag(),
    {
        match self {
            ProviderConfig::Cloudflare { .. } => "cloudflare",
            ProviderConfig::Custom { factory, config: _ } => factory.as_str(),
        }
    }
}

impl StateStoreConfig {
    /// The tag under which the factory for this store is registered.
    pub open spec fn spec_type_tag(&self) -> Seq<char> {
        match self {
            StateStoreConfig::File { path } => "file"@,
            StateStoreConfig::Memory => "memory"@,
            StateStoreConfig::Custom { factory, config } => factory@,
        }
    }

    /// The tag under which the factory for this store is registered:
    /// `file`, `memory`, or the factory named by a custom store.
    pub fn type_tag(&self) -> (name: &str)
        ensures
            name@ == self.spec_type_tag(),
    {
        match self {
            StateStoreConfig::File { .. } => "file",
            StateStoreConfig::Memory => "memory",
            StateStoreConfig::Custom { factory, config: _ } => factory.as_str(),
        }
    }
}

impl DdnsConfig {
    /// Why the configuration is refused, if it is: no records, then the provider's
    /// reason, then the source's.
    pub open spec fn rejection(&self) -> Option<Seq<char>> {
        if self.records@.len() == 0 {
            Some("No records configured"@)
        } else if self.provider.rejection() is Some {
            self.provider.rejection()
        } else {
            self.ip_source.rejection()
        }
    }

    /// Whether this is the configuration that nothing has been set in: a netlink
    /// source for every interface and both families, Cloudflare without a token,
    /// the store in memory, the default policies, and no records.
    pub open spec fn is_blank(&self) -> bool {
        &&& self.ip_source == (IpSourceConfig::Netlink { interface: None, version: None })
        &&& self.provider is Cloudflare
        &&& self.provider->api_token@.len() == 0
        &&& self.provider->zone_id is None
        &&& self.provider->account_id is None
        &&& self.state_store == StateStoreConfig::Memory
        &&& self.records@.len() == 0
        &&& self.engine.max_retries == 3
        &&& self.engine.retry_delay_secs == 5
        &&& self.engine.startup_delay_secs == 0
        &&& self.engine.min_update_interval_secs == 60
        &&& self.engine.event_channel_capacity == 1000
        &&& self.engine.metadata@.len() == 0
    }

    /// A configuration with the default source, provider, store and policies, and no records.
    pub fn new() -> (c: DdnsConfig)
        ensures
            c.is_blank(),
    {
        DdnsConfig {
            ip_source: IpSourceConfig::default(),
            provider: ProviderConfig::default(),
            state_store: StateStoreConfig::default(),
            records: Vec::new(),
            engine: EngineConfig::default(),
        }
    }

    /// Checks the configuration.
    pub fn validate(&self) -> (r: Result<(), Error>)
        ensures
            r is Ok <==> self.rejection() is None,
            r is Err ==> r->Err_0@ == ErrorView::Config(self.rejection()->0),
    {
        if self.records.len() == 0 {
            return Err(Error::config("No records configured"));
        }
        match self.provider.validate() {
            Err(e) => {
                return Err(e);
            },
            Ok(_) => {},
        }
        self.ip_source.validate()
    }
}

impl Default for DdnsConfig {
    fn default() -> (c: DdnsConfig)
        ensures
            c.is_blank(),
    {
        DdnsConfig::new()
    }
}

} // verus!
