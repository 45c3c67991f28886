//! The daemon's own configuration: what it takes from its environment, the
//! rules that configuration must meet, and the exit codes.

use crate::text::{
    alphanumeric, begins_with, byte_len, chars_of, contains, is_alphanumeric,
    decimal_u64, decimal_usize, lowercase_of, occurs_in, parse_u64, parse_usize, pieces, same,
    split, starts_with, to_lowercase, trim, trimmed_of,
};
use crate::table::texts_of;
use crate::config::{
    DdnsConfig, EngineConfig, IpSourceConfig, ProviderConfig, RecordConfig, RecordConfigView,
    RecordType, StateStoreConfig,
};
use vstd::prelude::*;

verus! {

/// How the daemon ends.
#[derive(Clone, Copy, Debug, PartialEq, Eq, Structural)]
pub enum DdnsExitCode {
    /// The daemon was asked to stop and did.
    CleanShutdown,
    /// The configuration was refused.
    ConfigError,
    /// The daemon failed while it ran.
    RuntimeError,
}

impl DdnsExitCode {
    /// The process's exit status: 0 for a clean shutdown, 1 for a configuration
    /// error, 2 for a runtime error.
    pub fn code(self) -> (c: u8)
        ensures
            c == match self {
                DdnsExitCode::CleanShutdown => 0u8,
                DdnsExitCode::ConfigError => 1u8,
                DdnsExitCode::RuntimeError => 2u8,
            },
    {
        match self {
            DdnsExitCode::CleanShutdown => 0,
            DdnsExitCode::ConfigError => 1,
            DdnsExitCode::RuntimeError => 2,
        }
    }
}

/// Why a domain name is refused. Labels are counted from 0.
#[derive(Clone, Copy, Debug, PartialEq, Eq, Structural)]
pub enum DomainIssue {
    /// The name is empty.
    Empty,
    /// The name takes more than 253 bytes.
    TooLong { length: usize },
    /// A label is empty: the name begins or ends with a dot, or has two in a row.
    EmptyLabel { label: usize },
    /// A label takes more than 63 bytes.
    LabelTooLong { label: usize, length: usize },
    /// A label holds a character that is neither alphanumeric nor a hyphen.
    InvalidCharacters { label: usize },
    /// A label begins or ends with a hyphen.
    HyphenAtEdge { label: usize },
}

/// Why the daemon's configuration is refused.
#[derive(Clone, Copy, Debug, PartialEq, Eq, Structural)]
pub enum ConfigIssue {
    /// No API token is set, or it is empty.
    MissingToken,
    /// The API token takes fewer than 20 bytes.
    TokenTooShort { length: usize },
    /// The API token is a placeholder from the documentation.
    PlaceholderToken,
    /// The provider type is not `cloudflare`.
    UnsupportedProvider,
    /// The IP source type is none of `netlink`, `http`, `file`.
    UnsupportedIpSource,
    /// The state store type is none of `file`, `memory`.
    UnsupportedStateStore,
    /// No record is configured.
    NoRecords,
    /// The record number `record` is no valid domain name.
    InvalidRecord { record: usize, issue: DomainIssue },
    /// The state store is a file and no path is set.
    MissingStatePath,
    /// The state store is a file and its path is empty.
    EmptyStatePath,
    /// The directory of the state file does not exist.
    MissingStateDirectory,
    /// The IP source is HTTP and no URL is set.
    MissingUrl,
    /// The URL begins with neither `https://` nor `http://`.
    BadUrlScheme,
    /// The polling interval lies outside 10 to 3600 seconds.
    IntervalOutOfRange { value: u64 },
    /// The number of retries lies outside 1 to 10.
    RetriesOutOfRange { value: usize },
    /// The retry delay lies outside 1 to 300 seconds.
    RetryDelayOutOfRange { value: u64 },
    /// The log level is none of `trace`, `debug`, `info`, `warn`, `error`.
    InvalidLogLevel,
}

/// Whether every character of `label` is alphanumeric or a hyphen.
pub open spec fn label_chars_valid(label: Seq<char>) -> bool {
    forall|i: int| 0 <= i < label.len() ==> alphanumeric(#[trigger] label[i]) || label[i] == '-'
}

/// Why the label number `index` is refused, if it is: the first rule it breaks of
/// not empty, at most 63 bytes, only alphanumeric characters and hyphens, no
/// hyphen at either end.
pub open spec fn label_issue(label: Seq<char>, index: usize) -> Option<DomainIssue> {
    if label.len() == 0 {
        Some(DomainIssue::EmptyLabel { label: index })
    } else if byte_len(label) > 63 {
        Some(DomainIssue::LabelTooLong { label: index, length: byte_len(label) as usize })
    } else if !label_chars_valid(label) {
        Some(DomainIssue::InvalidCharacters { label: index })
    } else if label.first() == '-' || label.last() == '-' {
        Some(DomainIssue::HyphenAtEdge { label: index })
    } else {
        None
    }
}

/// The issue of the first label at or after `from` that has one.
pub open spec fn first_label_issue(labels: Seq<Seq<char>>, from: int) -> Option<DomainIssue>
    decreases labels.len() - from,
{
    if from < 0 || from >= labels.len() {
        None
    } else if label_issue(labels[from], from as usize) is Some {
        label_issue(labels[from], from as usize)
    } else {
        first_label_issue(labels, from + 1)
    }
}

/// Why `domain` is refused as a domain name, if it is: empty, longer than 253
/// bytes, or the issue of the first of its dot-separated labels that has one.
pub open spec fn domain_issue(domain: Seq<char>) -> Option<DomainIssue> {
    if domain.len() == 0 {
        Some(DomainIssue::Empty)
    } else if byte_len(domain) > 253 {
        Some(DomainIssue::TooLong { length: byte_len(domain) as usize })
    } else {
        first_label_issue(pieces(domain, '.'), 0)
    }
}

/// Whether a lowercased token is one of the placeholders of the documentation.
pub open spec fn placeholder(token_lower: Seq<char>) -> bool {
    ||| occurs_in("your_token"@, token_lower)
    ||| occurs_in("replace_me"@, token_lower)
    ||| occurs_in("example"@, token_lower)
    ||| token_lower == "token"@
}

/// Whether a lowercased text names a log level.
pub open spec fn log_level_name(level_lower: Seq<char>) -> bool {
    ||| level_lower == "trace"@
    ||| level_lower == "debug"@
    ||| level_lower == "info"@
    ||| level_lower == "warn"@
    ||| level_lower == "error"@
}

/// Whether a lowercased token is one of the placeholders of the documentation:
/// it holds `your_token`, `replace_me` or `example`, or is `token`.
pub fn is_placeholder(token_lower: &str) -> (r: bool)
    ensures
        r == placeholder(token_lower@),
{
    contains(token_lower, "your_token") || contains(token_lower, "replace_me") || contains(
        token_lower,
        "example",
    ) || same(token_lower, "token")
}

/// Whether a lowercased text names a log level.
pub fn is_log_level(level_lower: &str) -> (r: bool)
    ensures
        r == log_level_name(level_lower@),
{
    same(level_lower, "trace") || same(level_lower, "debug") || same(level_lower, "info") || same(
        level_lower,
        "warn",
    ) || same(level_lower, "error")
}

/// The daemon's configuration, as taken from its environment.
///
/// The type has no debug representation, so that the token cannot find its way
/// into a log.
#[derive(Clone)]
pub struct Config {
    /// The type of the IP source.
    pub ip_source_type: String,
    /// The interface that a netlink source watches.
    pub ip_source_interface: Option<String>,
    /// The URL that an HTTP source asks.
    pub ip_source_url: Option<String>,
    /// Seconds between two requests of an HTTP source.
    pub ip_source_interval: Option<u64>,
    /// The type of the DNS provider.
    pub provider_type: String,
    /// The provider's API token.
    pub provider_api_token: String,
    /// The provider's zone.
    pub provider_zone_id: Option<String>,
    /// The names of the managed records.
    pub records: Vec<String>,
    /// The type of the state store.
    pub state_store_type: String,
    /// The path of the state file.
    pub state_store_path: Option<String>,
    /// How often a failed update is tried again.
    pub max_retries: Option<usize>,
    /// Seconds between two attempts.
    pub retry_delay_secs: Option<u64>,
    /// The log level.
    pub log_level: String,
}

impl Config {
    /// The issue of the first record at or after `from` that is no valid domain name.
    pub open spec fn first_record_issue(&self, from: int) -> Option<ConfigIssue>
        decreases self.records@.len() - from,
    {
        if from < 0 || from >= self.records@.len() {
            None
        } else if domain_issue(self.records@[from]@) is Some {
            Some(
                ConfigIssue::InvalidRecord {
                    record: from as usize,
                    issue: domain_issue(self.records@[from]@)->0,
                },
            )
        } else {
            self.first_record_issue(from + 1)
        }
    }

    /// Why the state store's settings are refused, if they are.
    pub open spec fn state_store_issue(&self, state_dir_missing: bool) -> Option<ConfigIssue> {
        if self.state_store_type@ != "file"@ {
            None
        } else if self.state_store_path is None {
            Some(ConfigIssue::MissingStatePath)
        } else if self.state_store_path->0@.len() == 0 {
            Some(ConfigIssue::EmptyStatePath)
        } else if state_dir_missing {
            Some(ConfigIssue::MissingStateDirectory)
        } else {
            None
        }
    }

    /// Why the HTTP source's settings are refused, if they are.
    pub open spec fn url_issue(&self) -> Option<ConfigIssue> {
        if self.ip_source_type@ != "http"@ {
            None
        } else if self.ip_source_url is None || self.ip_source_url->0@.len() == 0 {
            Some(ConfigIssue::MissingUrl)
        } else if !begins_with(self.ip_source_url->0@, "https://"@) && !begins_with(
            self.ip_source_url->0@,
            "http://"@,
        ) {
            Some(ConfigIssue::BadUrlScheme)
        } else {
            None
        }
    }

    /// Why one of the numbers is refused, if one is: the interval, then the
    /// retries, then the retry delay.
    pub open spec fn range_issue(&self) -> Option<ConfigIssue> {
        if self.ip_source_interval is Some && !(10 <= self.ip_source_interval->0 <= 3600) {
            Some(ConfigIssue::IntervalOutOfRange { value: self.ip_source_interval->0 })
        } else if self.max_retries is Some && !(1 <= self.max_retries->0 <= 10) {
            Some(ConfigIssue::RetriesOutOfRange { value: self.max_retries->0 })
        } else if self.retry_delay_secs is Some && !(1 <= self.retry_delay_secs->0 <= 300) {
            Some(ConfigIssue::RetryDelayOutOfRange { value: self.retry_delay_secs->0 })
        } else {
            None
        }
    }

    /// Why the configuration is refused, if it is: the first rule that it breaks.
    ///
    /// `token_lower` and `level_lower` are the token and the log level in lower
    /// case; `state_dir_missing` says that the state file is to lie in a
    /// directory that does not exist.
    pub open spec fn issue(
        &self,
        token_lower: Seq<char>,
        level_lower: Seq<char>,
        state_dir_missing: bool,
    ) -> Option<ConfigIssue> {
        if self.provider_api_token@.len() == 0 {
            Some(ConfigIssue::MissingToken)
        } else if byte_len(self.provider_api_token@) < 20 {
            Some(ConfigIssue::TokenTooShort { length: byte_len(self.provider_api_token@) as usize })
        } else if placeholder(token_lower) {
            Some(ConfigIssue::PlaceholderToken)
        } else if self.provider_type@ != "cloudflare"@ {
            Some(ConfigIssue::UnsupportedProvider)
        } else if !(self.ip_source_type@ == "netlink"@ || self.ip_source_type@ == "http"@
            || self.ip_source_type@ == "file"@) {
            Some(ConfigIssue::UnsupportedIpSource)
        } else if !(self.state_store_type@ == "file"@ || self.state_store_type@ == "memory"@) {
            Some(ConfigIssue::UnsupportedStateStore)
        } else if self.records@.len() == 0 {
            Some(ConfigIssue::NoRecords)
        } else if self.first_record_issue(0) is Some {
            self.first_record_issue(0)
        } else if self.state_store_issue(state_dir_missing) is Some {
            self.state_store_issue(state_dir_missing)
        } else if self.url_issue() is Some {
            self.url_issue()
        } else if self.range_issue() is Some {
            self.range_issue()
        } else if !log_level_name(level_lower) {
            Some(ConfigIssue::InvalidLogLevel)
        } else {
            None
        }
    }

    /// Whether the HTTP source is asked over plain HTTP, which deserves a warning.
    pub fn uses_plain_http(&self) -> (r: bool)
        ensures
            r == (self.ip_source_type@ == "http"@ && self.ip_source_url is Some && begins_with(
                self.ip_source_url->0@,
                "http://"@,
            )),
    {
        if !same(self.ip_source_type.as_str(), "http") {
            return false;
        }
        match &self.ip_source_url {
            Some(url) => starts_with(url.as_str(), "http://"),
            None => false,
        }
    }

    /// Checks one label of a domain name, given as the characters from `from` to `to`.
    fn check_label(domain: &str, chars: &Vec<char>, from: usize, to: usize, index: usize) -> (r:
        Option<DomainIssue>)
        requires
            chars@ == domain@,
            from <= to <= chars@.len(),
        ensures
            r == label_issue(domain@.subrange(from as int, to as int), index),
    {
        let ghost label = domain@.subrange(from as int, to as int);
        if from == to {
            return Some(DomainIssue::EmptyLabel { label: index });
        }
        let text = domain.substring_char(from, to);
        let length = text.as_bytes().len();
        if length > 63 {
            return Some(DomainIssue::LabelTooLong { label: index, length });
        }
        let mut i: usize = from;
        while i < to
            invariant
                from <= i <= to,
                to <= chars@.len(),
                chars@ == domain@,
                label == domain@.subrange(from as int, to as int),
                label.len() > 0,
                byte_len(label) <= 63,
                forall|k: int| 0 <= k < i - from ==> alphanumeric(#[trigger] label[k]) || label[k] == '-',
            decreases to - i,
        {
            let c = chars[i];
            if !(is_alphanumeric(c) || c == '-') {
                proof {
                    assert(label[i - from] == c);
                    assert(!(alphanumeric(label[i - from]) || label[i - from] == '-'));
                    assert(!label_chars_valid(label));
                }
                return Some(DomainIssue::InvalidCharacters { label: index });
            }
            i += 1;
        }
        if chars[from] == '-' || chars[to - 1] == '-' {
            return Some(DomainIssue::HyphenAtEdge { label: index });
        }
        None
    }

    /// Checks that `domain` is a domain name: not empty, at most 253 bytes, and
    /// made of dot-separated labels that are not empty, take at most 63 bytes,
    /// hold only alphanumeric characters and hyphens, and neither begin nor end
    /// with a hyphen. The first rule that is broken is reported.
    pub fn validate_domain_name(&self, domain: &str) -> (r: Result<(), DomainIssue>)
        ensures
            r is Ok <==> domain_issue(domain@) is None,
            r is Err ==> domain_issue(domain@) == Some(r->Err_0),
    {
        let chars = chars_of(domain);
        if chars.len() == 0 {
            return Err(DomainIssue::Empty);
        }
        let length = domain.as_bytes().len();
        if length > 253 {
            return Err(DomainIssue::TooLong { length });
        }
        let bounds = split(&chars, '.');
        let n = bounds.len();
        let ghost labels = pieces(domain@, '.');
        let mut k: usize = 0;
        while k < n
            invariant
                n == bounds@.len(),
                k <= n,
                chars@ == domain@,
                domain@.len() > 0,
                byte_len(domain@) <= 253,
                labels == pieces(domain@, '.'),
                bounds@.len() == labels.len(),
                forall|j: int|
                    0 <= j < bounds@.len() ==> {
                        &&& (#[trigger] bounds@[j]).0 <= bounds@[j].1 <= chars@.len()
                        &&& chars@.subrange(bounds@[j].0 as int, bounds@[j].1 as int) == labels[j]
                    },
                first_label_issue(labels, 0) == first_label_issue(labels, k as int),
            decreases n - k,
        {
            let (from, to) = bounds[k];
            proof {
                assert(bounds@[k as int].0 == from && bounds@[k as int].1 == to);
                assert(domain@.subrange(from as int, to as int) == labels[k as int]);
            }
            match Self::check_label(domain, &chars, from, to, k) {
                Some(issue) => {
                    assert(first_label_issue(labels, k as int) == Some(issue));
                    return Err(issue);
                },
                None => {},
            }
            k += 1;
        }
        Ok(())
    }

    /// The issue of the first record that is no valid domain name.
    fn check_records(&self) -> (r: Option<ConfigIssue>)
        ensures
            r == self.first_record_issue(0),
    {
        let n = self.records.len();
        let mut k: usize = 0;
        while k < n
            invariant
                n == self.records@.len(),
                k <= n,
                self.first_record_issue(0) == self.first_record_issue(k as int),
            decreases n - k,
        {
            match self.validate_domain_name(self.records[k].as_str()) {
                Err(issue) => {
                    return Some(ConfigIssue::InvalidRecord { record: k, issue });
                },
                Ok(_) => {},
            }
            k += 1;
        }
        None
    }

    /// Checks the state store's settings.
    fn check_state_store(&self, state_dir_missing: bool) -> (r: Option<ConfigIssue>)
        ensures
            r == self.state_store_issue(state_dir_missing),
    {
        if !same(self.state_store_type.as_str(), "file") {
            return None;
        }
        match &self.state_store_path {
            None => Some(ConfigIssue::MissingStatePath),
            Some(path) => {
                if path.as_str().unicode_len() == 0 {
                    Some(ConfigIssue::EmptyStatePath)
                } else if state_dir_missing {
                    Some(ConfigIssue::MissingStateDirectory)
                } else {
                    None
                }
            },
        }
    }

    /// Checks the HTTP source's settings.
    fn check_url(&self) -> (r: Option<ConfigIssue>)
        ensures
            r == self.url_issue(),
    {
        if !same(self.ip_source_type.as_str(), "http") {
            return None;
        }
        match &self.ip_source_url {
            None => Some(ConfigIssue::MissingUrl),
            Some(url) => {
                if url.as_str().unicode_len() == 0 {
                    Some(ConfigIssue::MissingUrl)
                } else if !starts_with(url.as_str(), "https://") && !starts_with(
                    url.as_str(),
                    "http://",
                ) {
                    Some(ConfigIssue::BadUrlScheme)
                } else {
                    None
                }
            },
        }
    }

    /// Checks the numbers.
    fn check_ranges(&self) -> (r: Option<ConfigIssue>)
        ensures
            r == self.range_issue(),
    {
        match self.ip_source_interval {
            Some(value) => {
                if value < 10 || value > 3600 {
                    return Some(ConfigIssue::IntervalOutOfRange { value });
                }
            },
            None => {},
        }
        match self.max_retries {
            Some(value) => {
                if value == 0 || value > 10 {
                    return Some(ConfigIssue::RetriesOutOfRange { value });
                }
            },
            None => {},
        }
        match self.retry_delay_secs {
            Some(value) => {
                if value < 1 || value > 300 {
                    return Some(ConfigIssue::RetryDelayOutOfRange { value });
                }
            },
            None => {},
        }
        None
    }

    /// Checks the configuration, given the token and the log level in lower case.
    ///
    /// `state_dir_missing` says that the state file is to lie in a directory that
    /// does not exist. The rules are tried in a fixed order and the first that is
    /// broken is reported: see [`Config::issue`].
    pub fn validate_with(&self, token_lower: &str, level_lower: &str, state_dir_missing: bool) -> (r:
        Result<(), ConfigIssue>)
        ensures
            r is Ok <==> self.issue(token_lower@, level_lower@, state_dir_missing) is None,
            r is Err ==> self.issue(token_lower@, level_lower@, state_dir_missing) == Some(
                r->Err_0,
            ),
    {
        let token = self.provider_api_token.as_str();
        if token.unicode_len() == 0 {
            return Err(ConfigIssue::MissingToken);
        }
        let length = token.as_bytes().len();
        if length < 20 {
            return Err(ConfigIssue::TokenTooShort { length });
        }
        if is_placeholder(token_lower) {
            return Err(ConfigIssue::PlaceholderToken);
        }
        if !same(self.provider_type.as_str(), "cloudflare") {
            return Err(ConfigIssue::UnsupportedProvider);
        }
        let source = self.ip_source_type.as_str();
        if !(same(source, "netlink") || same(source, "http") || same(source, "file")) {
            return Err(ConfigIssue::UnsupportedIpSource);
        }
        let store = self.state_store_type.as_str();
        if !(same(store, "file") || same(store, "memory")) {
            return Err(ConfigIssue::UnsupportedStateStore);
        }
        if self.records.len() == 0 {
            return Err(ConfigIssue::NoRecords);
        }
        match self.check_records() {
            Some(issue) => {
                return Err(issue);
            },
            None => {},
        }
        match self.check_state_store(state_dir_missing) {
            Some(issue) => {
                return Err(issue);
            },
            None => {},
        }
        match self.check_url() {
            Some(issue) => {
                return Err(issue);
            },
            None => {},
        }
        match self.check_ranges() {
            Some(issue) => {
                return Err(issue);
            },
            None => {},
        }
        if !is_log_level(level_lower) {
            return Err(ConfigIssue::InvalidLogLevel);
        }
        Ok(())
    }

    /// Checks the configuration.
    ///
    /// The token and the log level are compared in lower case; the result is that
    /// of [`Config::validate_with`] on their lowercase forms.
    pub fn validate(&self, state_dir_missing: bool) -> (r: Result<(), ConfigIssue>)
        ensures
            r is Ok <==> self.issue(
                lowercase_of(self.provider_api_token@),
                lowercase_of(self.log_level@),
                state_dir_missing,
            ) is None,
            r is Err ==> self.issue(
                lowercase_of(self.provider_api_token@),
                lowercase_of(self.log_level@),
                state_dir_missing,
            ) == Some(r->Err_0),
    {
        let token_lower = to_lowercase(self.provider_api_token.as_str());
        let level_lower = to_lowercase(self.log_level.as_str());
        self.validate_with(token_lower.as_str(), level_lower.as_str(), state_dir_missing)
    }
}

/// What the daemon finds in its environment: the value of each variable, where it is set.
///
/// The type has no debug representation, so that the token cannot find its way
/// into a log.
#[derive(Clone)]
pub struct Environment {
    /// `DDNS_IP_SOURCE_TYPE`
    pub ip_source_type: Option<String>,
    /// `DDNS_IP_SOURCE_INTERFACE`
    pub ip_source_interface: Option<String>,
    /// `DDNS_IP_SOURCE_URL`
    pub ip_source_url: Option<String>,
    /// `DDNS_IP_SOURCE_INTERVAL`
    pub ip_source_interval: Option<String>,
    /// `DDNS_PROVIDER_TYPE`
    pub provider_type: Option<String>,
    /// `DDNS_PROVIDER_API_TOKEN`
    pub provider_api_token: Option<String>,
    /// `DDNS_PROVIDER_ZONE_ID`
    pub provider_zone_id: Option<String>,
    /// `DDNS_RECORDS`
    pub records: Option<String>,
    /// `DDNS_STATE_STORE_TYPE`
    pub state_store_type: Option<String>,
    /// `DDNS_STATE_STORE_PATH`
    pub state_store_path: Option<String>,
    /// `DDNS_MAX_RETRIES`
    pub max_retries: Option<String>,
    /// `DDNS_RETRY_DELAY_SECS`
    pub retry_delay_secs: Option<String>,
    /// `DDNS_LOG_LEVEL`
    pub log_level: Option<String>,
}

/// The value of a variable, or `fallback` where it is not set.
pub open spec fn text_or(value: Option<String>, fallback: Seq<char>) -> Seq<char> {
    match value {
        Some(text) => text@,
        None => fallback,
    }
}

/// The value of a variable, or `fallback` where it is not set.
fn or_default(value: Option<String>, fallback: &str) -> (text: String)
    ensures
        text@ == text_or(value, fallback@),
{
    match value {
        Some(text) => text,
        None => String::from_str(fallback),
    }
}

impl Config {
    /// The configuration that an environment stands for.
    ///
    /// A variable that is not set takes its default: `netlink` for the source,
    /// `cloudflare` for the provider, `file` for the store, `info` for the log
    /// level, no records. A number that cannot be parsed counts as 60 for the
    /// interval, 3 for the retries and 5 for the retry delay. The token has no
    /// default: without it there is no configuration.
    pub fn from_env(env: Environment) -> (r: Result<Config, ConfigIssue>)
        ensures
            r is Ok <==> env.provider_api_token is Some,
            r is Err ==> r->Err_0 == ConfigIssue::MissingToken,
            r matches Ok(c) ==> {
                &&& c.ip_source_type@ == text_or(env.ip_source_type, "netlink"@)
                &&& c.ip_source_interface == env.ip_source_interface
                &&& c.ip_source_url == env.ip_source_url
                &&& c.ip_source_interval == match env.ip_source_interval {
                    None => None,
                    Some(text) => Some(
                        match decimal_u64(text@) {
                            Some(n) => n,
                            None => 60u64,
                        },
                    ),
                }
                &&& c.provider_type@ == text_or(env.provider_type, "cloudflare"@)
                &&& c.provider_api_token == env.provider_api_token->0
                &&& c.provider_zone_id == env.provider_zone_id
                &&& texts_of(c.records@) == listed_names(
                    pieces(text_or(env.records, Seq::empty()), ','),
                )
                &&& c.state_store_type@ == text_or(env.state_store_type, "file"@)
                &&& c.state_store_path == env.state_store_path
                &&& c.max_retries == match env.max_retries {
                    None => None,
                    Some(text) => Some(
                        match decimal_usize(text@) {
                            Some(n) => n,
                            None => 3usize,
                        },
                    ),
                }
                &&& c.retry_delay_secs == match env.retry_delay_secs {
                    None => None,
                    Some(text) => Some(
                        match decimal_u64(text@) {
                            Some(n) => n,
                            None => 5u64,
                        },
                    ),
                }
                &&& c.log_level@ == text_or(env.log_level, "info"@)
            },
    {
        let provider_api_token = match env.provider_api_token {
            Some(token) => token,
            None => {
                return Err(ConfigIssue::MissingToken);
            },
        };
        let ip_source_interval = match &env.ip_source_interval {
            Some(text) => Some(parse_u64(text.as_str()).unwrap_or(60)),
            None => None,
        };
        let max_retries = match &env.max_retries {
            Some(text) => Some(parse_usize(text.as_str()).unwrap_or(3)),
            None => None,
        };
        let retry_delay_secs = match &env.retry_delay_secs {
            Some(text) => Some(parse_u64(text.as_str()).unwrap_or(5)),
            None => None,
        };
        proof {
            reveal_strlit("");
            assert(""@ =~= Seq::<char>::empty());
        }
        let records = match &env.records {
            Some(raw) => parse_record_list(raw.as_str()),
            None => parse_record_list(""),
        };
        Ok(
            Config {
                ip_source_type: or_default(env.ip_source_type, "netlink"),
                ip_source_interface: env.ip_source_interface,
                ip_source_url: env.ip_source_url,
                ip_source_interval,
                provider_type: or_default(env.provider_type, "cloudflare"),
                provider_api_token,
                provider_zone_id: env.provider_zone_id,
                records,
                state_store_type: or_default(env.state_store_type, "file"),
                state_store_path: env.state_store_path,
                max_retries,
                retry_delay_secs,
                log_level: or_default(env.log_level, "info"),
            },
        )
    }
}

/// A copy of an optional text.
fn copy_of(value: &Option<String>) -> (copy: Option<String>)
    ensures
        copy is Some <==> value is Some,
        copy is Some ==> copy->0@ == value->0@,
{
    match value {
        Some(text) => Some(text.clone()),
        None => None,
    }
}

impl Config {
    /// Whether `c` is the pipeline that this configuration asks for.
    ///
    /// The source is the HTTP service where the source type is `http`, else the
    /// kernel's routing events. The provider is Cloudflare. The store is the state
    /// file where the store type is `file` and a path is set, else the memory. The
    /// records are those named, enabled, with their type left to the observed
    /// address. The policies are the default ones, but for the retries and the
    /// retry delay where they are set.
    pub open spec fn asks_for(&self, c: DdnsConfig) -> bool {
        &&& if self.ip_source_type@ == "http"@ {
            &&& c.ip_source matches IpSourceConfig::Http { url, interval_secs }
            &&& url@ == (match self.ip_source_url {
                Some(text) => text@,
                None => Seq::empty(),
            })
            &&& interval_secs == (match self.ip_source_interval {
                Some(secs) => secs,
                None => 60u64,
            })
        } else {
            &&& c.ip_source matches IpSourceConfig::Netlink { interface, version }
            &&& version is None
            &&& interface is Some <==> self.ip_source_interface is Some
            &&& interface is Some ==> interface->0@ == self.ip_source_interface->0@
        }
        &&& c.provider matches ProviderConfig::Cloudflare { api_token, zone_id, account_id }
        &&& api_token@ == self.provider_api_token@
        &&& zone_id is Some <==> self.provider_zone_id is Some
        &&& zone_id is Some ==> zone_id->0@ == self.provider_zone_id->0@
        &&& account_id is None
        &&& if self.state_store_type@ == "file"@ && self.state_store_path is Some {
            &&& c.state_store matches StateStoreConfig::File { path }
            &&& path@ == self.state_store_path->0@
        } else {
            c.state_store is Memory
        }
        &&& c.records@.len() == self.records@.len()
        &&& forall|i: int|
            0 <= i < self.records@.len() ==> (#[trigger] c.records@[i])@ == (RecordConfigView {
                name: self.records@[i]@,
                record_type: RecordType::Auto,
                enabled: true,
            })
        &&& c.engine.max_retries == (match self.max_retries {
            Some(n) => n,
            None => 3usize,
        })
        &&& c.engine.retry_delay_secs == (match self.retry_delay_secs {
            Some(n) => n,
            None => 5u64,
        })
        &&& c.engine.startup_delay_secs == 0
        &&& c.engine.min_update_interval_secs == 60
        &&& c.engine.event_channel_capacity == 1000
        &&& c.engine.metadata@.len() == 0
    }

    /// The pipeline that this configuration asks for.
    pub fn pipeline(&self) -> (c: DdnsConfig)
        ensures
            self.asks_for(c),
    {
        let ip_source = if same(self.ip_source_type.as_str(), "http") {
            IpSourceConfig::Http {
                url: match &self.ip_source_url {
                    Some(text) => text.clone(),
                    None => String::new(),
                },
                interval_secs: match self.ip_source_interval {
                    Some(secs) => secs,
                    None => 60,
                },
            }
        } else {
            IpSourceConfig::Netlink { interface: copy_of(&self.ip_source_interface), version: None }
        };
        let state_store = if same(self.state_store_type.as_str(), "file") {
            match &self.state_store_path {
                Some(path) => StateStoreConfig::File { path: path.clone() },
                None => StateStoreConfig::Memory,
            }
        } else {
            StateStoreConfig::Memory
        };
        let mut records: Vec<RecordConfig> = Vec::new();
        let n = self.records.len();
        let mut i: usize = 0;
        while i < n
            invariant
                n == self.records@.len(),
                i <= n,
                records@.len() == i,
                forall|k: int|
                    0 <= k < i ==> (#[trigger] records@[k])@ == (RecordConfigView {
                        name: self.records@[k]@,
                        record_type: RecordType::Auto,
                        enabled: true,
                    }),
            decreases n - i,
        {
            records.push(RecordConfig::new(self.records[i].as_str()));
            i += 1;
        }
        let mut engine = EngineConfig::default();
        match self.max_retries {
            Some(n) => {
                engine.max_retries = n;
            },
            None => {},
        }
        match self.retry_delay_secs {
            Some(n) => {
                engine.retry_delay_secs = n;
            },
            None => {},
        }
        DdnsConfig {
            ip_source,
            provider: ProviderConfig::Cloudflare {
                api_token: self.provider_api_token.clone(),
                zone_id: copy_of(&self.provider_zone_id),
                account_id: None,
            },
            state_store,
            records,
            engine,
        }
    }
}

/// The names of a comma-separated list, each trimmed, the empty ones left out.
pub open spec fn listed_names(parts: Seq<Seq<char>>) -> Seq<Seq<char>>
    decreases parts.len(),
{
    if parts.len() == 0 {
        Seq::empty()
    } else if trimmed_of(parts.last()).len() == 0 {
        listed_names(parts.drop_last())
    } else {
        listed_names(parts.drop_last()).push(trimmed_of(parts.last()))
    }
}

/// The record names of a comma-separated list: each part trimmed of white
/// space, the empty parts left out, in the order of the list.
pub fn parse_record_list(raw: &str) -> (names: Vec<String>)
    ensures
        texts_of(names@) == listed_names(pieces(raw@, ',')),
{
    let chars = chars_of(raw);
    let bounds = split(&chars, ',');
    let mut names: Vec<String> = Vec::new();
    let n = bounds.len();
    let ghost parts = pieces(raw@, ',');
    let mut k: usize = 0;
    proof {
        assert(parts.take(0) =~= Seq::<Seq<char>>::empty());
        assert(texts_of(names@) =~= Seq::<Seq<char>>::empty());
    }
    while k < n
        invariant
            n == bounds@.len(),
            k <= n,
            chars@ == raw@,
            parts == pieces(raw@, ','),
            bounds@.len() == parts.len(),
            forall|j: int|
                0 <= j < bounds@.len() ==> {
                    &&& (#[trigger] bounds@[j]).0 <= bounds@[j].1 <= chars@.len()
                    &&& chars@.subrange(bounds@[j].0 as int, bounds@[j].1 as int) == parts[j]
                },
            texts_of(names@) == listed_names(parts.take(k as int)),
        decreases n - k,
    {
        let (from, to) = bounds[k];
        let part = raw.substring_char(from, to);
        let name = trim(part);
        let ghost before = names@;
        proof {
            assert(parts.take(k + 1).drop_last() =~= parts.take(k as int));
            assert(parts.take(k + 1).last() == parts[k as int]);
        }
        if name.unicode_len() > 0 {
            names.push(String::from_str(name));
            proof {
                assert(texts_of(names@) =~= texts_of(
                    before,
                ).push(trimmed_of(parts[k as int])));
            }
        }
        k += 1;
    }
    proof {
        assert(parts.take(n as int) =~= parts);
    }
    names
}

} // verus!
