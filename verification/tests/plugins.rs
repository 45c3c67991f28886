use ddns_core::cloudflare::{
    self, zone_name, ApiRequest, ApiResponse, CloudflareFactory, CloudflareProvider, Stage,
};
use ddns_core::config::{IpSourceConfig, IpVersion, ProviderConfig, RecordType};
use ddns_core::error::Error;
use ddns_core::http::{self, Fetched, HttpFactory, HttpIpSource};
use ddns_core::ip::IpAddress;
use ddns_core::netlink::{self, find_interface, select_address, NetlinkFactory, NetlinkIpSource};
use ddns_core::registry::ProviderRegistry;
use ddns_core::traits::{IpChangeEvent, UpdateResult};

fn v4(a: u8, b: u8, c: u8, d: u8) -> IpAddress {
    IpAddress::from_octets(a, b, c, d)
}

fn v6(last: u16) -> IpAddress {
    IpAddress::from_segments([0x2001, 0xdb8, 0, 0, 0, 0, 0, last])
}

#[test]
fn test_factory_creation() {
    let factory = HttpFactory;
    let config = IpSourceConfig::Http {
        url: "https://api.ipify.org".to_string(),
        interval_secs: 60,
    };
    let source = factory.create(&config);
    assert!(source.is_ok());
    let source = source.unwrap();
    assert_eq!(source.url, "https://api.ipify.org");
    assert_eq!(source.poll_interval_secs, 60);
    assert_eq!(source.version, None);
    assert_eq!(
        factory.create(&IpSourceConfig::Netlink { interface: None, version: None }).err(),
        Some(Error::config("Invalid config for HTTP IP source"))
    );
}

#[test]
fn lib_test_factory_creation() {
    let factory = NetlinkFactory;
    let config = IpSourceConfig::Netlink {
        interface: Some("eth0".to_string()),
        version: Some(IpVersion::V4),
    };
    let source = factory.create(&config);
    assert!(source.is_ok());
    let source = source.unwrap();
    assert_eq!(source.interface, Some("eth0".to_string()));
    assert_eq!(source.version, Some(IpVersion::V4));
    assert_eq!(source.debounce_ms, 500);
    assert_eq!(
        factory
            .create(&IpSourceConfig::Http { url: "https://x".to_string(), interval_secs: 1 })
            .err(),
        Some(Error::config("Invalid config for Netlink IP source"))
    );
}

#[test]
fn cloudflare_test_factory_creation() {
    let factory = CloudflareFactory;
    let config = ProviderConfig::Cloudflare {
        api_token: "test_token".to_string(),
        zone_id: Some("test_zone".to_string()),
        account_id: None,
    };
    let provider = factory.create(&config, None);
    assert!(provider.is_ok());
    let provider = provider.unwrap();
    assert_eq!(provider.zone_id, Some("test_zone".to_string()));
    assert_eq!(provider.account_id, None);
    assert!(!provider.dry_run);
    assert!(factory.create(&config, Some("DRY-RUN")).unwrap().dry_run);
    assert!(factory.create(&config, Some("dry-run")).unwrap().dry_run);
    assert!(!factory.create(&config, Some("live")).unwrap().dry_run);
    let custom = ProviderConfig::Custom { factory: "x".to_string(), config: Some("{}".to_string()) };
    assert_eq!(
        factory.create(&custom, None).err(),
        Some(Error::config("Invalid config for Cloudflare provider"))
    );
}

#[test]
fn test_factory_missing_token() {
    let factory = CloudflareFactory;
    let config = ProviderConfig::Cloudflare {
        api_token: "".to_string(),
        zone_id: None,
        account_id: None,
    };
    let provider = factory.create(&config, None);
    assert!(provider.is_err());
    assert_eq!(provider.err(), Some(Error::config("Cloudflare API token is required")));
}

#[test]
fn test_should_accept_ip() {
    let source = NetlinkIpSource::new(None, Some(IpVersion::V4));

    assert!(source.should_accept_ip(&v4(192, 168, 1, 1)));
    assert!(source.should_accept_ip(&v4(8, 8, 8, 8)));
    assert!(!source.should_accept_ip(&v6(1)));
    assert!(!source.should_accept_ip(&v4(127, 0, 0, 1)));
    assert!(!source.should_accept_ip(&v4(0, 0, 0, 0)));
}

#[test]
fn test_should_accept_ip_v6() {
    let source = NetlinkIpSource::new(None, Some(IpVersion::V6));

    assert!(!source.should_accept_ip(&v4(192, 168, 1, 1)));
    assert!(source.should_accept_ip(&v6(1)));
    assert!(!source.should_accept_ip(&IpAddress::from_segments([0, 0, 0, 0, 0, 0, 0, 1])));
    assert!(!source.should_accept_ip(&IpAddress::from_segments([0, 0, 0, 0, 0, 0, 0, 0])));
}

#[test]
fn test_debounce() {
    let source = NetlinkIpSource::with_debounce(None, None, 100);
    assert_eq!(source.debounce_ms, 100);
}

#[test]
fn test_dry_run_mode() {
    let provider_dry = CloudflareProvider::new_dry_run("token", None, None);
    let provider_live = CloudflareProvider::new_live("token", None, None);

    assert!(provider_dry.dry_run, "Dry-run provider should have dry_run=true");
    assert!(!provider_live.dry_run, "Live provider should have dry_run=false");
}

#[test]
fn test_supports_record() {
    let provider = CloudflareProvider::new("token", None, None, false);

    assert!(provider.supports_record("example.com"));
    assert!(provider.supports_record("sub.example.com"));
    assert!(!provider.supports_record(""));
    assert!(!provider.supports_record("a".repeat(254).as_str()));
    assert!(!provider.supports_record("localhost"));
    let longest = format!("{}.com", "a".repeat(249));
    assert_eq!(longest.len(), 253);
    assert!(provider.supports_record(&longest));
    assert!(!provider.supports_record(&format!("a{}", longest)));
}

#[test]
fn test_provider_name() {
    let provider = CloudflareProvider::new("token", None, None, false);
    assert_eq!(provider.provider_name(), "cloudflare");
}

#[test]
fn test_zone_id_preconfigured() {
    let provider = CloudflareProvider::new("test_token", Some("test_zone_id".to_string()), None, false);
    assert_eq!(provider.zone_id, Some("test_zone_id".to_string()));
}

#[test]
fn test_api_token_not_exposed_in_debug() {
    let provider = CloudflareProvider::new("secret_token_12345", None, None, false);

    let debug_str = provider.redacted();

    assert!(!debug_str.contains("secret_token_12345"));
    assert!(!debug_str.contains("secret_token"));
    assert!(debug_str.contains("CloudflareProvider"));
    assert_eq!(
        debug_str,
        "CloudflareProvider { api_token: <REDACTED>, zone_id: None, account_id: None, dry_run: false }"
    );
    let provider = CloudflareProvider::new_dry_run("secret", Some("z1".to_string()), Some("a1".to_string()));
    assert_eq!(
        provider.redacted(),
        "CloudflareProvider { api_token: <REDACTED>, zone_id: Some(z1), account_id: Some(a1), dry_run: true }"
    );
}

#[test]
fn test_http_timeout_configured() {
    let provider = CloudflareProvider::new("test_token", None, None, false);
    assert_eq!(provider.api_token, "test_token");
    assert_eq!(cloudflare::DEFAULT_HTTP_TIMEOUT_SECS, 30);
    assert_eq!(http::REQUEST_TIMEOUT_SECS, 10);
    assert_eq!(http::DEFAULT_POLL_INTERVAL_SECS, 60);
    assert_eq!(netlink::DEFAULT_DEBOUNCE_MS, 500);
}

#[test]
fn plugins_register_under_their_tags() {
    let mut registry: ProviderRegistry<CloudflareFactory, u8, ()> = ProviderRegistry::new();
    cloudflare::register(&mut registry, CloudflareFactory);
    netlink::register(&mut registry, 1);
    http::register(&mut registry, 2);
    assert!(registry.has_provider("cloudflare"));
    assert_eq!(registry.list_ip_sources(), vec!["netlink".to_string(), "http".to_string()]);
    assert_eq!(
        registry.create_ip_source(&IpSourceConfig::Http { url: "u".to_string(), interval_secs: 1 }),
        Ok(&2)
    );
}

#[test]
fn zone_names_are_derived_from_the_last_labels() {
    assert_eq!(zone_name("example.com"), Ok("example.com".to_string()));
    assert_eq!(zone_name("sub.example.com"), Ok("example.com".to_string()));
    assert_eq!(zone_name("a.b.example.com"), Ok("example.com".to_string()));
    assert_eq!(zone_name("www.example.co.uk"), Ok("example.co".to_string()));
    assert_eq!(zone_name("www.foo.com"), Ok("www.foo".to_string()));
    assert_eq!(zone_name("localhost"), Err(Error::config("Invalid domain name: localhost")));
    assert_eq!(zone_name(""), Err(Error::config("Invalid domain name: ")));
    assert_eq!(zone_name("a."), Ok("a.".to_string()));
}

fn listed(ids: &[Option<&str>]) -> ApiResponse {
    ApiResponse::Listed { ids: Some(ids.iter().map(|id| id.map(|s| s.to_string())).collect()) }
}

fn url_of(request: &ApiRequest) -> String {
    match request {
        ApiRequest::Get { url } => url.clone(),
        ApiRequest::Put { url, .. } => url.clone(),
        other => panic!("no request: {:?}", other),
    }
}

fn result_of(request: ApiRequest) -> Result<UpdateResult, Error> {
    match request {
        ApiRequest::Done(result) => result,
        other => panic!("not done: {:?}", other),
    }
}

#[test]
fn cloudflare_update_walks_through_its_requests() {
    let provider = CloudflareProvider::new("token", None, None, false);
    let new_ip = v4(10, 0, 0, 1);
    let old_ip = v4(192, 168, 1, 1);
    let (mut update, request) = provider.begin_update("sub.example.com", new_ip);
    assert_eq!(update.stage(), Stage::LookingUpZone);
    assert_eq!(url_of(&request), "https://api.cloudflare.com/client/v4/zones?name=example.com");

    let request = update.advance(listed(&[Some("z1"), Some("z2")]));
    assert_eq!(update.stage(), Stage::LookingUpRecord);
    assert_eq!(
        url_of(&request),
        "https://api.cloudflare.com/client/v4/zones/z1/dns_records?name=sub.example.com&type=A"
    );

    let request = update.advance(listed(&[Some("r9")]));
    assert_eq!(update.stage(), Stage::ReadingRecord);
    assert_eq!(url_of(&request), "https://api.cloudflare.com/client/v4/zones/z1/dns_records/r9");

    let request = update.advance(ApiResponse::Record {
        content: Some("192.168.1.1".to_string()),
        address: Some(old_ip),
    });
    assert_eq!(update.stage(), Stage::Writing);
    match &request {
        ApiRequest::Put { url, new_ip: sent, record_type } => {
            assert_eq!(url, "https://api.cloudflare.com/client/v4/zones/z1/dns_records/r9");
            assert_eq!(*sent, new_ip);
            assert_eq!(*record_type, RecordType::A);
        }
        other => panic!("no write: {:?}", other),
    }

    let done = update.advance(ApiResponse::Accepted);
    assert_eq!(update.stage(), Stage::Finished);
    assert_eq!(result_of(done), Ok(UpdateResult::Updated { previous_ip: Some(old_ip), new_ip }));
    assert!(matches!(update.advance(ApiResponse::Accepted), ApiRequest::Unexpected));
}

#[test]
fn cloudflare_update_with_known_zone_and_ipv6() {
    let provider = CloudflareProvider::new("token", Some("zone42".to_string()), None, false);
    let new_ip = v6(1);
    let (mut update, request) = provider.begin_update("example.com", new_ip);
    assert_eq!(update.stage(), Stage::LookingUpRecord);
    assert_eq!(
        url_of(&request),
        "https://api.cloudflare.com/client/v4/zones/zone42/dns_records?name=example.com&type=AAAA"
    );
    assert!(matches!(update.advance(ApiResponse::Accepted), ApiRequest::Unexpected));
    update.advance(listed(&[Some("r1")]));
    let done = update.advance(ApiResponse::Record { content: Some("2001:db8::1".to_string()), address: Some(new_ip) });
    assert_eq!(result_of(done), Ok(UpdateResult::Unchanged { current_ip: new_ip }));
    assert_eq!(cloudflare::record_type_for(new_ip), RecordType::Aaaa);
    assert_eq!(cloudflare::type_text_of(v4(1, 1, 1, 1)), "A");
}

#[test]
fn cloudflare_dry_run_never_writes() {
    let provider = CloudflareProvider::new_dry_run("token", Some("z".to_string()), None);
    let new_ip = v4(10, 0, 0, 1);
    let old_ip = v4(10, 0, 0, 2);
    let (mut update, _) = provider.begin_update("example.com", new_ip);
    update.advance(listed(&[Some("r1")]));
    let done = update.advance(ApiResponse::Record { content: Some("10.0.0.2".to_string()), address: Some(old_ip) });
    assert_eq!(result_of(done), Ok(UpdateResult::Updated { previous_ip: Some(old_ip), new_ip }));
    assert_eq!(update.stage(), Stage::Finished);
}

#[test]
fn cloudflare_errors_are_classified() {
    let provider = CloudflareProvider::new("token", None, None, false);
    let ip = v4(10, 0, 0, 1);
    let blame = |message: &str| Err(Error::provider("cloudflare", message));

    let (_, request) = provider.begin_update("localhost", ip);
    assert_eq!(result_of(request), Err(Error::config("Invalid domain name: localhost")));

    let fresh = || provider.begin_update("sub.example.com", ip).0;
    let rejected = |code: u16, status: &str| ApiResponse::Rejected {
        code,
        status: status.to_string(),
        body: "oops".to_string(),
    };

    assert_eq!(
        result_of(fresh().advance(ApiResponse::Failed { error: "timeout".to_string() })),
        blame("HTTP request failed: timeout")
    );
    assert_eq!(
        result_of(fresh().advance(ApiResponse::Unparsable { error: "eof".to_string() })),
        blame("Failed to parse response: eof")
    );
    for (code, status) in [(401, "401 Unauthorized"), (403, "403 Forbidden")] {
        assert_eq!(
            result_of(fresh().advance(rejected(code, status))),
            blame(&format!(
                "Authentication failed: Invalid API token or insufficient permissions. Status: {}",
                status
            ))
        );
    }
    assert_eq!(
        result_of(fresh().advance(rejected(404, "404 Not Found"))),
        Err(Error::not_found("Zone not found: example.com"))
    );
    assert_eq!(
        result_of(fresh().advance(rejected(429, "429 Too Many Requests"))),
        blame("Rate limit exceeded. Please retry later. Status: 429 Too Many Requests")
    );
    assert_eq!(
        result_of(fresh().advance(rejected(503, "503 Service Unavailable"))),
        blame("Cloudflare server error (transient): 503 Service Unavailable - oops")
    );
    assert_eq!(
        result_of(fresh().advance(rejected(409, "409 Conflict"))),
        blame("Zone lookup failed: 409 Conflict - oops")
    );
    assert_eq!(
        result_of(fresh().advance(ApiResponse::Listed { ids: None })),
        blame("Invalid response format: result is not an array")
    );
    assert_eq!(
        result_of(fresh().advance(listed(&[]))),
        Err(Error::not_found("Zone not found: example.com"))
    );
    assert_eq!(
        result_of(fresh().advance(listed(&[None, Some("z")]))),
        blame("Invalid response format: zone.id is not a string")
    );

    let at_record = || {
        let mut update = fresh();
        update.advance(listed(&[Some("z1")]));
        update
    };
    assert_eq!(
        result_of(at_record().advance(rejected(404, "404 Not Found"))),
        Err(Error::not_found("DNS record not found: sub.example.com (type: A)"))
    );
    assert_eq!(
        result_of(at_record().advance(rejected(418, "418 I'm a teapot"))),
        blame("Record lookup failed: 418 I'm a teapot - oops")
    );
    assert_eq!(
        result_of(at_record().advance(listed(&[]))),
        Err(Error::not_found("DNS record not found: sub.example.com (type: A)"))
    );
    assert_eq!(
        result_of(at_record().advance(listed(&[None]))),
        blame("Invalid response format: record.id is not a string")
    );

    let at_read = || {
        let mut update = at_record();
        update.advance(listed(&[Some("r1")]));
        update
    };
    assert_eq!(
        result_of(at_read().advance(rejected(404, "404 Not Found"))),
        Err(Error::not_found("DNS record not found: sub.example.com"))
    );
    assert_eq!(
        result_of(at_read().advance(rejected(400, "400 Bad Request"))),
        blame("Failed to get record: 400 Bad Request - oops")
    );
    assert_eq!(
        result_of(at_read().advance(ApiResponse::Record { content: None, address: None })),
        blame("Invalid response format: content is not a string")
    );
    assert_eq!(
        result_of(at_read().advance(ApiResponse::Record { content: Some("x".to_string()), address: None })),
        blame("Invalid IP in response: invalid IP address syntax")
    );

    let at_write = || {
        let mut update = at_read();
        update.advance(ApiResponse::Record { content: Some("1.1.1.1".to_string()), address: Some(v4(1, 1, 1, 1)) });
        update
    };
    assert_eq!(
        result_of(at_write().advance(rejected(409, "409 Conflict"))),
        blame("Conflict: Record is being updated by another process. Status: 409 Conflict")
    );
    assert_eq!(
        result_of(at_write().advance(rejected(404, "404 Not Found"))),
        blame("Failed to update record: 404 Not Found - oops")
    );
    assert_eq!(
        provider.get_record("example.com").err(),
        Some(Error::not_found("get_record not implemented"))
    );
}

#[test]
fn netlink_selection_prefers_scope_then_ipv4_then_order() {
    assert_eq!(select_address(&vec![]), None);
    let private = v4(192, 168, 1, 10);
    let global4 = v4(8, 8, 8, 8);
    let global4b = v4(1, 1, 1, 1);
    let global6 = v6(1);
    let link_local = v4(169, 254, 1, 1);
    let ula = IpAddress::from_segments([0xfd00, 0, 0, 0, 0, 0, 0, 1]);
    assert_eq!(select_address(&vec![link_local, private, global6]), Some(global6));
    assert_eq!(select_address(&vec![global6, global4, global4b]), Some(global4));
    assert_eq!(select_address(&vec![global4b, global4]), Some(global4b));
    assert_eq!(select_address(&vec![ula, link_local]), Some(ula));
    assert_eq!(select_address(&vec![ula, private]), Some(private));
    assert_eq!(select_address(&vec![link_local]), Some(link_local));
    assert_eq!(netlink::preference_of(&global4), 9);
    assert_eq!(netlink::preference_of(&global6), 8);
    assert_eq!(netlink::preference_of(&private), 7);
}

#[test]
fn netlink_source_filters_selects_and_debounces() {
    let mut source = NetlinkIpSource::with_debounce(Some("eth0".to_string()), None, 500);
    let loopback = v4(127, 0, 0, 1);
    let private = v4(192, 168, 1, 10);
    let global = v4(203, 0, 113, 7);
    assert_eq!(source.filter(&vec![loopback, private, v4(0, 0, 0, 0), global]), vec![private, global]);
    assert_eq!(source.current(&vec![loopback, private, global]), Ok(global));
    assert_eq!(
        source.current(&vec![loopback]),
        Err(Error::not_found("No suitable IP addresses found"))
    );
    assert_eq!(source.version(), None);

    assert_eq!(source.observe(&vec![loopback], 1_000), None);
    assert_eq!(source.observe(&vec![private], 1_000), Some(IpChangeEvent::new(private, None)));
    assert_eq!(source.current_ip, Some(private));
    assert_eq!(source.observe(&vec![private], 5_000), None);
    assert_eq!(source.observe(&vec![global], 1_500), None);
    assert_eq!(source.current_ip, Some(private));
    let v6_global = v6(7);
    let mut both = NetlinkIpSource::with_debounce(None, Some(IpVersion::Both), 500);
    assert_eq!(both.observe(&vec![private], 1_000), Some(IpChangeEvent::new(private, None)));
    assert_eq!(both.observe(&vec![v6_global], 1_100), Some(IpChangeEvent::new(v6_global, Some(private))));
    assert_eq!(both.last_event_v4, Some(1_000));
    assert_eq!(both.last_event_v6, Some(1_100));
    assert_eq!(source.observe(&vec![global], 1_501), Some(IpChangeEvent::new(global, Some(private))));
    assert_eq!(source.last_event_v4, Some(1_501));

    let only_v6 = NetlinkIpSource::new(None, Some(IpVersion::V6));
    assert_eq!(only_v6.version(), Some(ddns_core::traits::IpVersion::V6));
    assert_eq!(only_v6.current(&vec![global, v6_global]), Ok(v6_global));
}

#[test]
fn netlink_interface_is_found_by_name() {
    let links = vec![("lo".to_string(), 1), ("eth0".to_string(), 2), ("eth0".to_string(), 7)];
    assert_eq!(find_interface(&links, "eth0"), Ok(2));
    assert_eq!(find_interface(&links, "lo"), Ok(1));
    assert_eq!(find_interface(&links, "wlan0"), Err(Error::not_found("Interface 'wlan0' not found")));
}

#[test]
fn http_source_resolves_answers() {
    let mut source = HttpIpSource::new("https://api.ipify.org".to_string(), Some(IpVersion::V4));
    assert_eq!(source.poll_interval_secs, 60);
    assert_eq!(source.cached(), None);
    let blame = |message: &str| Err(Error::provider("http", message));
    assert_eq!(
        source.fetch_ip(&Fetched::RequestFailed { error: "connection refused".to_string() }),
        blame("Request failed: connection refused")
    );
    assert_eq!(
        source.fetch_ip(&Fetched::BadStatus { status: "500 Internal Server Error".to_string() }),
        blame("HTTP error: 500 Internal Server Error")
    );
    assert_eq!(
        source.fetch_ip(&Fetched::BodyUnreadable { error: "reset".to_string() }),
        blame("Failed to read response: reset")
    );
    assert_eq!(
        source.fetch_ip(&Fetched::Body { text: "<html>".to_string(), address: None }),
        blame("Invalid IP address: <html>")
    );
    assert_eq!(
        source.fetch_ip(&Fetched::Body { text: "2001:db8::1".to_string(), address: Some(v6(1)) }),
        blame("Expected IPv4, got: 2001:db8::1")
    );
    let good = Fetched::Body { text: "203.0.113.7".to_string(), address: Some(v4(203, 0, 113, 7)) };
    assert_eq!(source.resolve(&good), Ok(v4(203, 0, 113, 7)));
    assert_eq!(source.cached(), Some(v4(203, 0, 113, 7)));
    assert_eq!(source.version(), Some(ddns_core::traits::IpVersion::V4));

    let only_v6 = HttpIpSource::with_interval("https://x".to_string(), Some(IpVersion::V6), 30);
    assert_eq!(only_v6.fetch_ip(&good), blame("Expected IPv6, got: 203.0.113.7"));
    assert_eq!(only_v6.poll_interval_secs, 30);
}

#[test]
fn http_watch_reports_only_changes() {
    let mut source = HttpIpSource::new("https://api.ipify.org".to_string(), None);
    let first = v4(203, 0, 113, 7);
    let second = v4(203, 0, 113, 8);
    let body = |ip: IpAddress, text: &str| Fetched::Body { text: text.to_string(), address: Some(ip) };
    assert_eq!(source.observe(&Fetched::RequestFailed { error: "x".to_string() }), None);
    assert_eq!(source.observe(&body(first, "203.0.113.7")), Some(IpChangeEvent::new(first, None)));
    assert_eq!(source.observe(&body(first, "203.0.113.7")), None);
    assert_eq!(source.observe(&Fetched::Body { text: "junk".to_string(), address: None }), None);
    assert_eq!(source.observe(&body(second, "203.0.113.8")), Some(IpChangeEvent::new(second, Some(first))));
    assert_eq!(source.cached(), Some(second));
    let mut only_v4 = HttpIpSource::new("https://x".to_string(), Some(IpVersion::V4));
    assert_eq!(only_v4.observe(&body(v6(1), "2001:db8::1")), None);
    assert_eq!(only_v4.last_known_ip, None);
}
