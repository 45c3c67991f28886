use ddns_core::config::{IpSourceConfig, ProviderConfig, RecordType, StateStoreConfig};
use ddns_core::daemon::{
    is_log_level, is_placeholder, parse_record_list, Config, ConfigIssue, DdnsExitCode,
    DomainIssue, Environment,
};
use ddns_core::text::{chars_of, contains, join, same, split, starts_with};

fn valid() -> Config {
    Config {
        ip_source_type: "netlink".to_string(),
        ip_source_interface: None,
        ip_source_url: None,
        ip_source_interval: None,
        provider_type: "cloudflare".to_string(),
        provider_api_token: "0123456789abcdefghij0123456789abcdefghij".to_string(),
        provider_zone_id: None,
        records: vec!["example.com".to_string(), "www.example.com".to_string()],
        state_store_type: "memory".to_string(),
        state_store_path: None,
        max_retries: None,
        retry_delay_secs: None,
        log_level: "info".to_string(),
    }
}

fn with(change: impl FnOnce(&mut Config)) -> Config {
    let mut config = valid();
    change(&mut config);
    config
}

#[test]
fn exit_codes_tell_configuration_from_runtime_errors() {
    assert_eq!(DdnsExitCode::CleanShutdown.code(), 0);
    assert_eq!(DdnsExitCode::ConfigError.code(), 1);
    assert_eq!(DdnsExitCode::RuntimeError.code(), 2);
}

#[test]
fn domain_names_are_checked_label_by_label() {
    let config = valid();
    assert_eq!(config.validate_domain_name("example.com"), Ok(()));
    assert_eq!(config.validate_domain_name("sub-domain.example.com"), Ok(()));
    assert_eq!(config.validate_domain_name("localhost"), Ok(()));
    assert_eq!(config.validate_domain_name("xn--bcher-kva.example"), Ok(()));
    assert_eq!(config.validate_domain_name("bücher.example"), Ok(()));
    assert_eq!(config.validate_domain_name(""), Err(DomainIssue::Empty));
    let long = format!("{}.com", "a".repeat(250));
    assert_eq!(config.validate_domain_name(&long), Err(DomainIssue::TooLong { length: 254 }));
    assert_eq!(config.validate_domain_name("example..com"), Err(DomainIssue::EmptyLabel { label: 1 }));
    assert_eq!(config.validate_domain_name(".example.com"), Err(DomainIssue::EmptyLabel { label: 0 }));
    assert_eq!(config.validate_domain_name("example.com."), Err(DomainIssue::EmptyLabel { label: 2 }));
    let label = "a".repeat(64);
    assert_eq!(
        config.validate_domain_name(&format!("www.{}.com", label)),
        Err(DomainIssue::LabelTooLong { label: 1, length: 64 })
    );
    assert_eq!(config.validate_domain_name(&format!("{}.com", "a".repeat(63))), Ok(()));
    assert_eq!(
        config.validate_domain_name("exa_mple.com"),
        Err(DomainIssue::InvalidCharacters { label: 0 })
    );
    assert_eq!(
        config.validate_domain_name("example.c om"),
        Err(DomainIssue::InvalidCharacters { label: 1 })
    );
    assert_eq!(config.validate_domain_name("-example.com"), Err(DomainIssue::HyphenAtEdge { label: 0 }));
    assert_eq!(config.validate_domain_name("example.com-"), Err(DomainIssue::HyphenAtEdge { label: 1 }));
    assert_eq!(config.validate_domain_name("a.-"), Err(DomainIssue::HyphenAtEdge { label: 1 }));
}

#[test]
fn configuration_rules_are_tried_in_order() {
    assert_eq!(valid().validate(false), Ok(()));
    assert_eq!(with(|c| c.provider_api_token.clear()).validate(false), Err(ConfigIssue::MissingToken));
    assert_eq!(
        with(|c| c.provider_api_token = "short".to_string()).validate(false),
        Err(ConfigIssue::TokenTooShort { length: 5 })
    );
    for token in ["abcdefghij_YOUR_TOKEN_abcdefghij", "xxxxxxxxxxxxxxxxREPLACE_ME", "an-example-of-a-token-value"] {
        assert_eq!(
            with(|c| c.provider_api_token = token.to_string()).validate(false),
            Err(ConfigIssue::PlaceholderToken)
        );
    }
    assert_eq!(
        with(|c| c.provider_type = "route53".to_string()).validate(false),
        Err(ConfigIssue::UnsupportedProvider)
    );
    assert_eq!(
        with(|c| c.ip_source_type = "dhcp".to_string()).validate(false),
        Err(ConfigIssue::UnsupportedIpSource)
    );
    assert_eq!(with(|c| c.ip_source_type = "file".to_string()).validate(false), Ok(()));
    assert_eq!(
        with(|c| c.state_store_type = "redis".to_string()).validate(false),
        Err(ConfigIssue::UnsupportedStateStore)
    );
    assert_eq!(with(|c| c.records.clear()).validate(false), Err(ConfigIssue::NoRecords));
    assert_eq!(
        with(|c| c.records.push("bad..name".to_string())).validate(false),
        Err(ConfigIssue::InvalidRecord { record: 2, issue: DomainIssue::EmptyLabel { label: 1 } })
    );
    assert_eq!(
        with(|c| {
            c.provider_type = "route53".to_string();
            c.records.clear();
        })
        .validate(false),
        Err(ConfigIssue::UnsupportedProvider)
    );
}

#[test]
fn state_file_settings_are_checked() {
    let file = |path: Option<&str>| {
        with(|c| {
            c.state_store_type = "file".to_string();
            c.state_store_path = path.map(|p| p.to_string());
        })
    };
    assert_eq!(file(None).validate(false), Err(ConfigIssue::MissingStatePath));
    assert_eq!(file(Some("")).validate(false), Err(ConfigIssue::EmptyStatePath));
    assert_eq!(
        file(Some("/var/lib/ddns/state.json")).validate(true),
        Err(ConfigIssue::MissingStateDirectory)
    );
    assert_eq!(file(Some("/var/lib/ddns/state.json")).validate(false), Ok(()));
    assert_eq!(valid().validate(true), Ok(()));
}

#[test]
fn http_source_settings_are_checked() {
    let http = |url: Option<&str>| {
        with(|c| {
            c.ip_source_type = "http".to_string();
            c.ip_source_url = url.map(|u| u.to_string());
        })
    };
    assert_eq!(http(None).validate(false), Err(ConfigIssue::MissingUrl));
    assert_eq!(http(Some("")).validate(false), Err(ConfigIssue::MissingUrl));
    assert_eq!(http(Some("ftp://example.com")).validate(false), Err(ConfigIssue::BadUrlScheme));
    assert_eq!(http(Some("https://api.ipify.org")).validate(false), Ok(()));
    assert_eq!(http(Some("http://api.ipify.org")).validate(false), Ok(()));
    assert!(http(Some("http://api.ipify.org")).uses_plain_http());
    assert!(!http(Some("https://api.ipify.org")).uses_plain_http());
    assert!(!with(|c| c.ip_source_url = Some("http://x".to_string())).uses_plain_http());
}

#[test]
fn numbers_and_log_level_are_checked() {
    for (value, ok) in [(9, false), (10, true), (3600, true), (3601, false)] {
        let result = with(|c| c.ip_source_interval = Some(value)).validate(false);
        assert_eq!(result, if ok { Ok(()) } else { Err(ConfigIssue::IntervalOutOfRange { value }) });
    }
    for (value, ok) in [(0, false), (1, true), (10, true), (11, false)] {
        let result = with(|c| c.max_retries = Some(value)).validate(false);
        assert_eq!(result, if ok { Ok(()) } else { Err(ConfigIssue::RetriesOutOfRange { value }) });
    }
    for (value, ok) in [(0, false), (1, true), (300, true), (301, false)] {
        let result = with(|c| c.retry_delay_secs = Some(value)).validate(false);
        assert_eq!(result, if ok { Ok(()) } else { Err(ConfigIssue::RetryDelayOutOfRange { value }) });
    }
    assert_eq!(
        with(|c| {
            c.ip_source_interval = Some(1);
            c.max_retries = Some(0);
        })
        .validate(false),
        Err(ConfigIssue::IntervalOutOfRange { value: 1 })
    );
    for level in ["trace", "DEBUG", "Info", "warn", "ERROR"] {
        assert_eq!(with(|c| c.log_level = level.to_string()).validate(false), Ok(()));
    }
    assert_eq!(
        with(|c| c.log_level = "verbose".to_string()).validate(false),
        Err(ConfigIssue::InvalidLogLevel)
    );
    assert_eq!(
        valid().validate_with("0123456789abcdefghij", "INFO", false),
        Err(ConfigIssue::InvalidLogLevel)
    );
    assert!(is_log_level("warn"));
    assert!(!is_log_level("Warn"));
    assert!(is_placeholder("token"));
    assert!(is_placeholder("my example"));
    assert!(!is_placeholder("tokens"));
}

#[test]
fn environment_becomes_a_configuration() {
    let empty = Environment {
        ip_source_type: None,
        ip_source_interface: None,
        ip_source_url: None,
        ip_source_interval: None,
        provider_type: None,
        provider_api_token: None,
        provider_zone_id: None,
        records: None,
        state_store_type: None,
        state_store_path: None,
        max_retries: None,
        retry_delay_secs: None,
        log_level: None,
    };
    assert_eq!(Config::from_env(empty.clone()).err(), Some(ConfigIssue::MissingToken));

    let mut env = empty.clone();
    env.provider_api_token = Some("secret".to_string());
    let config = Config::from_env(env).unwrap();
    assert_eq!(config.ip_source_type, "netlink");
    assert_eq!(config.provider_type, "cloudflare");
    assert_eq!(config.state_store_type, "file");
    assert_eq!(config.log_level, "info");
    assert_eq!(config.provider_api_token, "secret");
    assert!(config.records.is_empty());
    assert_eq!(config.ip_source_interval, None);
    assert_eq!(config.max_retries, None);
    assert_eq!(config.retry_delay_secs, None);

    let mut env = empty;
    env.provider_api_token = Some("secret".to_string());
    env.ip_source_type = Some("http".to_string());
    env.ip_source_url = Some("https://api.ipify.org".to_string());
    env.ip_source_interval = Some("120".to_string());
    env.max_retries = Some("many".to_string());
    env.retry_delay_secs = Some("-1".to_string());
    env.records = Some(" example.com, ,www.example.com ,,".to_string());
    env.state_store_path = Some("/tmp/state.json".to_string());
    env.log_level = Some("debug".to_string());
    let config = Config::from_env(env).unwrap();
    assert_eq!(config.ip_source_type, "http");
    assert_eq!(config.ip_source_url, Some("https://api.ipify.org".to_string()));
    assert_eq!(config.ip_source_interval, Some(120));
    assert_eq!(config.max_retries, Some(3));
    assert_eq!(config.retry_delay_secs, Some(5));
    assert_eq!(config.records, vec!["example.com".to_string(), "www.example.com".to_string()]);
    assert_eq!(config.state_store_path, Some("/tmp/state.json".to_string()));
    assert_eq!(config.log_level, "debug");
}

#[test]
fn record_lists_are_split_and_trimmed() {
    assert_eq!(parse_record_list(""), Vec::<String>::new());
    assert_eq!(parse_record_list(" , ,"), Vec::<String>::new());
    assert_eq!(parse_record_list("a.com"), vec!["a.com".to_string()]);
    assert_eq!(
        parse_record_list("a.com,\tb.com ,c.com"),
        vec!["a.com".to_string(), "b.com".to_string(), "c.com".to_string()]
    );
}

#[test]
fn text_helpers_work_on_characters() {
    assert_eq!(chars_of("añb"), vec!['a', 'ñ', 'b']);
    assert!(same("abc", "abc"));
    assert!(!same("abc", "abd"));
    assert_eq!(join("ab", "cd"), "abcd");
    assert!(contains("hello world", "lo w"));
    assert!(contains("hello", ""));
    assert!(contains("hello", "hello"));
    assert!(!contains("hello", "hello!"));
    assert!(!contains("hello", "hex"));
    assert!(starts_with("https://x", "https://"));
    assert!(!starts_with("http://x", "https://"));
    assert!(!starts_with("ht", "http"));
    assert_eq!(split(&chars_of("a.bc..d"), '.'), vec![(0, 1), (2, 4), (5, 5), (6, 7)]);
    assert_eq!(split(&chars_of(""), '.'), vec![(0, 0)]);
    assert_eq!(split(&chars_of("."), '.'), vec![(0, 0), (1, 1)]);
}

#[test]
fn daemon_settings_become_a_pipeline() {
    let pipeline = valid().pipeline();
    assert!(matches!(pipeline.ip_source, IpSourceConfig::Netlink { interface: None, version: None }));
    assert!(matches!(pipeline.state_store, StateStoreConfig::Memory));
    match &pipeline.provider {
        ProviderConfig::Cloudflare { api_token, zone_id, account_id } => {
            assert_eq!(api_token, "0123456789abcdefghij0123456789abcdefghij");
            assert_eq!(*zone_id, None);
            assert_eq!(*account_id, None);
        }
        _ => panic!("the provider is Cloudflare"),
    }
    assert_eq!(pipeline.records.len(), 2);
    assert_eq!(pipeline.records[1].name, "www.example.com");
    assert_eq!(pipeline.records[1].record_type, RecordType::Auto);
    assert!(pipeline.records[1].enabled);
    assert_eq!(pipeline.engine.max_retries, 3);
    assert_eq!(pipeline.engine.retry_delay_secs, 5);
    assert_eq!(pipeline.engine.min_update_interval_secs, 60);
    assert_eq!(pipeline.engine.event_channel_capacity, 1000);
    assert!(pipeline.validate().is_ok());

    let pipeline = with(|c| {
        c.ip_source_type = "http".to_string();
        c.ip_source_url = Some("https://api.ipify.org".to_string());
        c.ip_source_interval = Some(120);
        c.ip_source_interface = Some("eth0".to_string());
        c.provider_zone_id = Some("zone".to_string());
        c.state_store_type = "file".to_string();
        c.state_store_path = Some("/var/lib/ddns/state.json".to_string());
        c.max_retries = Some(7);
        c.retry_delay_secs = Some(11);
    })
    .pipeline();
    match &pipeline.ip_source {
        IpSourceConfig::Http { url, interval_secs } => {
            assert_eq!(url, "https://api.ipify.org");
            assert_eq!(*interval_secs, 120);
        }
        _ => panic!("the source is HTTP"),
    }
    assert!(matches!(&pipeline.state_store, StateStoreConfig::File { path } if path == "/var/lib/ddns/state.json"));
    assert!(matches!(&pipeline.provider, ProviderConfig::Cloudflare { zone_id: Some(zone), .. } if zone == "zone"));
    assert_eq!(pipeline.engine.max_retries, 7);
    assert_eq!(pipeline.engine.retry_delay_secs, 11);

    let netlink = with(|c| c.ip_source_interface = Some("eth0".to_string())).pipeline();
    assert!(matches!(&netlink.ip_source, IpSourceConfig::Netlink { interface: Some(name), version: None } if name == "eth0"));
    let no_path = with(|c| c.state_store_type = "file".to_string()).pipeline();
    assert!(matches!(no_path.state_store, StateStoreConfig::Memory));
    let http_default = with(|c| c.ip_source_type = "http".to_string()).pipeline();
    assert!(matches!(&http_default.ip_source, IpSourceConfig::Http { url, interval_secs: 60 } if url.is_empty()));
}
