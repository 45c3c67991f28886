use ddns_core::config::{
    default_enabled, default_event_channel_capacity, default_max_retries,
    default_min_update_interval_secs, default_record_type, default_retry_delay_secs,
    default_startup_delay_secs, DdnsConfig, EngineConfig, IpSourceConfig, IpVersion,
    ProviderConfig, RecordConfig, RecordType, StateStoreConfig,
};
use ddns_core::error::Error;
use ddns_core::ip::IpAddress;
use ddns_core::registry::ProviderRegistry;
use ddns_core::traits::{IpChangeEvent, UpdateResult};

struct MockProviderFactory;

fn valid_config() -> DdnsConfig {
    let mut config = DdnsConfig::new();
    config.provider = ProviderConfig::Cloudflare {
        api_token: "token".to_string(),
        zone_id: None,
        account_id: None,
    };
    config.records.push(RecordConfig::new("example.com"));
    config
}

#[test]
fn test_registry_registration() {
    let mut registry: ProviderRegistry<MockProviderFactory, (), ()> = ProviderRegistry::new();
    assert!(!registry.has_provider("mock"));

    registry.register_provider("mock", MockProviderFactory);
    assert!(registry.has_provider("mock"));
    assert!(registry.list_providers().contains(&"mock".to_string()));
}

#[test]
fn registry_resolves_factories_by_tag() {
    let mut registry: ProviderRegistry<u32, u32, u32> = ProviderRegistry::new();
    registry.register_provider("cloudflare", 1);
    registry.register_provider("mine", 2);
    registry.register_provider("cloudflare", 3);
    registry.register_ip_source("netlink", 10);
    registry.register_ip_source("http", 11);
    registry.register_state_store("memory", 20);
    assert_eq!(registry.list_providers(), vec!["cloudflare".to_string(), "mine".to_string()]);
    assert_eq!(registry.list_ip_sources(), vec!["netlink".to_string(), "http".to_string()]);
    assert_eq!(registry.list_state_stores(), vec!["memory".to_string()]);
    assert!(registry.has_ip_source("http"));
    assert!(!registry.has_ip_source("memory"));
    assert!(registry.has_state_store("memory"));
    assert!(!registry.has_state_store("file"));

    let cloudflare = ProviderConfig::Cloudflare { api_token: "t".to_string(), zone_id: None, account_id: None };
    assert_eq!(registry.create_provider(&cloudflare), Ok(&3));
    let custom = ProviderConfig::Custom { factory: "mine".to_string(), config: Some("{}".to_string()) };
    assert_eq!(registry.create_provider(&custom), Ok(&2));
    let unknown = ProviderConfig::Custom { factory: "other".to_string(), config: Some("{}".to_string()) };
    assert_eq!(
        registry.create_provider(&unknown),
        Err(Error::config("Unknown provider type: other"))
    );

    assert_eq!(
        registry.create_ip_source(&IpSourceConfig::Netlink { interface: None, version: None }),
        Ok(&10)
    );
    assert_eq!(
        registry.create_ip_source(&IpSourceConfig::Http { url: "https://x".to_string(), interval_secs: 1 }),
        Ok(&11)
    );
    assert_eq!(
        registry.create_ip_source(&IpSourceConfig::Custom { factory: "dhcp".to_string(), config: None }),
        Err(Error::config("Unknown IP source type: dhcp"))
    );
    assert_eq!(registry.create_state_store(&StateStoreConfig::Memory), Ok(&20));
    assert_eq!(
        registry.create_state_store(&StateStoreConfig::File { path: "/tmp/s.json".to_string() }),
        Err(Error::config("Unknown state store type: file"))
    );
    assert_eq!(
        registry.create_state_store(&StateStoreConfig::Custom { factory: "redis".to_string(), config: None }),
        Err(Error::config("Unknown state store type: redis"))
    );
}

#[test]
fn defaults_are_the_documented_ones() {
    assert_eq!(default_record_type(), RecordType::Auto);
    assert!(default_enabled());
    assert_eq!(default_max_retries(), 3);
    assert_eq!(default_retry_delay_secs(), 5);
    assert_eq!(default_startup_delay_secs(), 0);
    assert_eq!(default_min_update_interval_secs(), 60);
    assert_eq!(default_event_channel_capacity(), 1000);
    let engine = EngineConfig::default();
    assert_eq!(engine.max_retries, 3);
    assert_eq!(engine.retry_delay_secs, 5);
    assert_eq!(engine.startup_delay_secs, 0);
    assert_eq!(engine.min_update_interval_secs, 60);
    assert_eq!(engine.event_channel_capacity, 1000);
    assert!(engine.metadata.is_empty());
    let config = DdnsConfig::default();
    assert!(config.records.is_empty());
    assert!(matches!(config.state_store, StateStoreConfig::Memory));
    assert!(matches!(config.ip_source, IpSourceConfig::Netlink { interface: None, version: None }));
    assert!(matches!(StateStoreConfig::default(), StateStoreConfig::Memory));
    assert_eq!(IpVersion::Both, IpVersion::Both);
}

#[test]
fn record_config_builders() {
    let record = RecordConfig::new("sub.example.com");
    assert_eq!(record.name, "sub.example.com");
    assert_eq!(record.record_type, RecordType::Auto);
    assert!(record.enabled);
    let record = record.with_record_type(RecordType::Aaaa).with_enabled(false);
    assert_eq!(record.name, "sub.example.com");
    assert_eq!(record.record_type, RecordType::Aaaa);
    assert!(!record.enabled);
    let copy = record.clone();
    assert_eq!(copy.name, record.name);
}

#[test]
fn configuration_is_validated_in_order() {
    assert!(valid_config().validate().is_ok());

    let empty = DdnsConfig::new();
    assert_eq!(empty.validate(), Err(Error::config("No records configured")));

    let mut config = valid_config();
    config.provider = ProviderConfig::default();
    config.ip_source = IpSourceConfig::Http { url: String::new(), interval_secs: 0 };
    assert_eq!(config.validate(), Err(Error::config("Cloudflare API token cannot be empty")));

    let mut config = valid_config();
    config.ip_source = IpSourceConfig::Http { url: String::new(), interval_secs: 0 };
    assert_eq!(config.validate(), Err(Error::config("HTTP IP source URL cannot be empty")));
    config.ip_source = IpSourceConfig::Http { url: "https://api.ipify.org".to_string(), interval_secs: 0 };
    assert_eq!(config.validate(), Err(Error::config("HTTP IP source interval must be > 0")));
    config.ip_source = IpSourceConfig::Http { url: "https://api.ipify.org".to_string(), interval_secs: 1 };
    assert!(config.validate().is_ok());
}

#[test]
fn custom_variants_are_validated() {
    let provider = ProviderConfig::Custom { factory: String::new(), config: None };
    assert_eq!(provider.validate(), Err(Error::config("Custom provider factory cannot be empty")));
    let provider = ProviderConfig::Custom { factory: "mine".to_string(), config: None };
    assert_eq!(provider.validate(), Err(Error::config("Custom provider config cannot be null")));
    let provider = ProviderConfig::Custom { factory: "mine".to_string(), config: Some("{}".to_string()) };
    assert!(provider.validate().is_ok());
    assert_eq!(provider.type_tag(), "mine");

    let source = IpSourceConfig::Custom { factory: String::new(), config: Some("1".to_string()) };
    assert_eq!(source.validate(), Err(Error::config("Custom IP source factory cannot be empty")));
    let source = IpSourceConfig::Custom { factory: "dhcp".to_string(), config: None };
    assert!(source.validate().is_ok());
    assert_eq!(source.type_tag(), "dhcp");
    assert!(IpSourceConfig::default().validate().is_ok());
    assert_eq!(IpSourceConfig::default().type_tag(), "netlink");
    assert_eq!(ProviderConfig::default().type_tag(), "cloudflare");
    assert_eq!(StateStoreConfig::File { path: "p".to_string() }.type_tag(), "file");
    assert_eq!(StateStoreConfig::Memory.type_tag(), "memory");
}

#[test]
fn errors_read_as_their_kind_and_message() {
    assert_eq!(Error::ip_source("x").to_text(), "IP source error: x");
    assert_eq!(Error::dns_provider("x").to_text(), "DNS provider error: x");
    assert_eq!(Error::state_store("x").to_text(), "State store error: x");
    assert_eq!(Error::config("x").to_text(), "Configuration error: x");
    assert_eq!(Error::network("x").to_text(), "Network error: x");
    assert_eq!(Error::json("x").to_text(), "JSON error: x");
    assert_eq!(Error::http("x").to_text(), "HTTP error: x");
    assert_eq!(Error::auth("x").to_text(), "Authentication failed: x");
    assert_eq!(Error::rate_limited("x").to_text(), "Rate limited: x");
    assert_eq!(Error::not_found("x").to_text(), "Record not found: x");
    assert_eq!(Error::invalid_input("x").to_text(), "Invalid input: x");
    assert_eq!(Error::provider("cloudflare", "boom").to_text(), "Provider error (cloudflare): boom");
    assert_eq!(Error::other("plain").to_text(), "plain");
    assert_eq!(Error::config("x").clone(), Error::Config("x".to_string()));
}

#[test]
fn change_events_and_results_carry_their_family() {
    let v4 = IpAddress::from_octets(10, 0, 0, 1);
    let v6 = IpAddress::from_segments([0x2001, 0xdb8, 0, 0, 0, 0, 0, 1]);
    let event = IpChangeEvent::new(v4, None);
    assert_eq!(event.version, ddns_core::traits::IpVersion::V4);
    assert_eq!(event.previous_ip, None);
    let event = IpChangeEvent::new(v6, Some(v4));
    assert_eq!(event.version, ddns_core::traits::IpVersion::V6);
    assert_eq!(event.new_ip, v6);
    assert_eq!(event.previous_ip, Some(v4));
    assert!(UpdateResult::Updated { previous_ip: None, new_ip: v4 }.is_mutation());
    assert!(UpdateResult::Created { new_ip: v4 }.is_mutation());
    assert!(!UpdateResult::Unchanged { current_ip: v4 }.is_mutation());
}
