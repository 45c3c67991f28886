//! The IP source that asks an HTTP service for the caller's address: what it
//! makes of an answer, and when it reports a change.
//!
//! The requests are the caller's. It hands each answer, as a [`Fetched`], to
//! [`HttpIpSource::resolve`] for `current()` or to [`HttpIpSource::observe`] in
//! the watch loop.

use crate::config::{IpSourceConfig, IpVersion};
use crate::error::{Error, ErrorView};
use crate::ip::IpAddress;
use crate::registry::ProviderRegistry;
use crate::text::join;
use crate::traits::ip_source::spec_version_of;
use crate::traits::IpChangeEvent;
use vstd::prelude::*;

verus! {

/// Seconds between two requests unless another interval is asked for.
pub const DEFAULT_POLL_INTERVAL_SECS: u64 = 60;

/// Seconds after which a request is given up.
pub const REQUEST_TIMEOUT_SECS: u64 = 10;

/// What a request to the service gave.
#[derive(Debug)]
pub enum Fetched {
    /// The request failed; `error` says how.
    RequestFailed { error: String },
    /// The service answered with a status that is no success; `status` is the status line.
    BadStatus { status: String },
    /// The body of the answer could not be read; `error` says how.
    BodyUnreadable { error: String },
    /// The service answered with `text`, trimmed of white space, which denotes
    /// the address `address`, or none.
    Body { text: String, address: Option<IpAddress> },
}

/// Whether a source limited to `version` takes an address of the family of `ip`.
pub open spec fn family_allowed(version: Option<IpVersion>, ip: IpAddress) -> bool {
    match version {
        Some(IpVersion::V4) => ip is V4,
        Some(IpVersion::V6) => ip is V6,
        _ => true,
    }
}

/// What a source limited to `version` makes of an answer: the address, or the
/// error attributed to the provider `http`.
pub open spec fn resolved(version: Option<IpVersion>, fetched: Fetched) -> Result<IpAddress, ErrorView> {
    match fetched {
        Fetched::RequestFailed { error } => Err(
            ErrorView::Provider { provider: "http"@, message: "Request failed: "@ + error@ },
        ),
        Fetched::BadStatus { status } => Err(
            ErrorView::Provider { provider: "http"@, message: "HTTP error: "@ + status@ },
        ),
        Fetched::BodyUnreadable { error } => Err(
            ErrorView::Provider {
                provider: "http"@,
                message: "Failed to read response: "@ + error@,
            },
        ),
        Fetched::Body { text, address } => match address {
            None => Err(
                ErrorView::Provider {
                    provider: "http"@,
                    message: "Invalid IP address: "@ + text@,
                },
            ),
            Some(ip) => if family_allowed(version, ip) {
                Ok(ip)
            } else if version == Some(IpVersion::V4) {
                Err(
                    ErrorView::Provider {
                        provider: "http"@,
                        message: "Expected IPv4, got: "@ + text@,
                    },
                )
            } else {
                Err(
                    ErrorView::Provider {
                        provider: "http"@,
                        message: "Expected IPv6, got: "@ + text@,
                    },
                )
            },
        },
    }
}

/// The source's settings and what it has reported so far.
#[derive(Debug)]
pub struct HttpIpSource {
    /// The service's URL.
    pub url: String,
    /// The family to accept; both if absent.
    pub version: Option<IpVersion>,
    /// Seconds between two requests.
    pub poll_interval_secs: u64,
    /// The address last fetched or reported.
    pub current_ip: Option<IpAddress>,
    /// The address last reported by the watch loop.
    pub last_known_ip: Option<IpAddress>,
}

impl HttpIpSource {
    /// A source that asks `url` at the default interval.
    pub fn new(url: String, version: Option<IpVersion>) -> (s: HttpIpSource)
        ensures
            s.url == url,
            s.version == version,
            s.poll_interval_secs == DEFAULT_POLL_INTERVAL_SECS,
            s.current_ip is None,
            s.last_known_ip is None,
    {
        HttpIpSource {
            url,
            version,
            poll_interval_secs: DEFAULT_POLL_INTERVAL_SECS,
            current_ip: None,
            last_known_ip: None,
        }
    }

    /// A source that asks `url` every `poll_interval_secs` seconds.
    pub fn with_interval(url: String, version: Option<IpVersion>, poll_interval_secs: u64) -> (s:
        HttpIpSource)
        ensures
            s.url == url,
            s.version == version,
            s.poll_interval_secs == poll_interval_secs,
            s.current_ip is None,
            s.last_known_ip is None,
    {
        HttpIpSource { url, version, poll_interval_secs, current_ip: None, last_known_ip: None }
    }

    /// Whether the source takes an address of the family of `ip`.
    pub fn allows(&self, ip: &IpAddress) -> (r: bool)
        ensures
            r == family_allowed(self.version, *ip),
    {
        match self.version {
            Some(IpVersion::V4) => ip.is_ipv4(),
            Some(IpVersion::V6) => ip.is_ipv6(),
            Some(IpVersion::Both) => true,
            None => true,
        }
    }

    /// What the source makes of an answer: the address that the service gave, if
    /// the request succeeded, the body denotes an address, and the address is of
    /// a family that the source takes; else the error.
    pub fn fetch_ip(&self, fetched: &Fetched) -> (r: Result<IpAddress, Error>)
        ensures
            r is Ok <==> resolved(self.version, *fetched) is Ok,
            r matches Ok(ip) ==> resolved(self.version, *fetched) == Ok::<IpAddress, ErrorView>(ip),
            r matches Err(e) ==> resolved(self.version, *fetched) == Err::<IpAddress, ErrorView>(e@),
    {
        match fetched {
            Fetched::RequestFailed { error } => Err(
                Error::Provider {
                    provider: String::from_str("http"),
                    message: join("Request failed: ", error.as_str()),
                },
            ),
            Fetched::BadStatus { status } => Err(
                Error::Provider {
                    provider: String::from_str("http"),
                    message: join("HTTP error: ", status.as_str()),
                },
            ),
            Fetched::BodyUnreadable { error } => Err(
                Error::Provider {
                    provider: String::from_str("http"),
                    message: join("Failed to read response: ", error.as_str()),
                },
            ),
            Fetched::Body { text, address } => match address {
                None => Err(
                    Error::Provider {
                        provider: String::from_str("http"),
                        message: join("Invalid IP address: ", text.as_str()),
                    },
                ),
                Some(ip) => {
                    if self.allows(ip) {
                        Ok(*ip)
                    } else {
                        match self.version {
                            Some(IpVersion::V4) => Err(
                                Error::Provider {
                                    provider: String::from_str("http"),
                                    message: join("Expected IPv4, got: ", text.as_str()),
                                },
                            ),
                            _ => Err(
                                Error::Provider {
                                    provider: String::from_str("http"),
                                    message: join("Expected IPv6, got: ", text.as_str()),
                                },
                            ),
                        }
                    }
                },
            },
        }
    }

    /// The address that `current()` answers with, if it needs no request: the
    /// address last fetched or reported.
    pub fn cached(&self) -> (r: Option<IpAddress>)
        ensures
            r == self.current_ip,
    {
        self.current_ip
    }

    /// Answers `current()` from what a request gave, and remembers the address.
    pub fn resolve(&mut self, fetched: &Fetched) -> (r: Result<IpAddress, Error>)
        ensures
            r is Ok <==> resolved(old(self).version, *fetched) is Ok,
            r matches Ok(ip) ==> resolved(old(self).version, *fetched) == Ok::<IpAddress, ErrorView>(
                ip,
            ) && *final(self) == (HttpIpSource { current_ip: Some(ip), ..*old(self) }),
            r matches Err(e) ==> resolved(old(self).version, *fetched) == Err::<
                IpAddress,
                ErrorView,
            >(e@) && *final(self) == *old(self),
    {
        match self.fetch_ip(fetched) {
            Ok(ip) => {
                self.current_ip = Some(ip);
                Ok(ip)
            },
            Err(e) => Err(e),
        }
    }

    /// The address that the watch loop reports for an answer, if it reports one:
    /// the address of the body, when it is of a family that the source takes
    /// and differs from the address last reported.
    pub open spec fn reports(&self, fetched: Fetched) -> Option<IpAddress> {
        match fetched {
            Fetched::Body { text, address: Some(ip) } => if family_allowed(self.version, ip)
                && self.last_known_ip != Some(ip) {
                Some(ip)
            } else {
                None
            },
            _ => None,
        }
    }

    /// Takes what a request of the watch loop gave, and gives the event to emit,
    /// if there is one. With an event the source remembers the address; without,
    /// it is unchanged.
    pub fn observe(&mut self, fetched: &Fetched) -> (r: Option<IpChangeEvent>)
        ensures
            match old(self).reports(*fetched) {
                Some(ip) => {
                    &&& r == Some(
                        IpChangeEvent {
                            new_ip: ip,
                            previous_ip: old(self).last_known_ip,
                            version: spec_version_of(ip),
                        },
                    )
                    &&& *final(self) == (HttpIpSource {
                        current_ip: Some(ip),
                        last_known_ip: Some(ip),
                        ..*old(self)
                    })
                },
                None => r is None && *final(self) == *old(self),
            },
    {
        match fetched {
            Fetched::Body { text: _, address: Some(ip) } => {
                let known = match self.last_known_ip {
                    Some(last) => last == *ip,
                    None => false,
                };
                if self.allows(ip) && !known {
                    let event = IpChangeEvent::new(*ip, self.last_known_ip);
                    self.last_known_ip = Some(*ip);
                    self.current_ip = Some(*ip);
                    Some(event)
                } else {
                    None
                }
            },
            _ => None,
        }
    }

    /// The family that the source is limited to, if it is limited to one.
    pub fn version(&self) -> (v: Option<crate::traits::IpVersion>)
        ensures
            v == match self.version {
                Some(IpVersion::V4) => Some(crate::traits::IpVersion::V4),
                Some(IpVersion::V6) => Some(crate::traits::IpVersion::V6),
                _ => None,
            },
    {
        match self.version {
            Some(IpVersion::V4) => Some(crate::traits::IpVersion::V4),
            Some(IpVersion::V6) => Some(crate::traits::IpVersion::V6),
            Some(IpVersion::Both) => None,
            None => None,
        }
    }
}

/// The factory of HTTP sources.
#[derive(Clone, Copy, Debug, PartialEq, Eq, Structural)]
pub struct HttpFactory;

impl HttpFactory {
    /// The source for `config`, which must be an HTTP configuration: it asks the
    /// configured URL at the configured interval and takes both families.
    pub fn create(&self, config: &IpSourceConfig) -> (r: Result<HttpIpSource, Error>)
        ensures
            r is Ok <==> config is Http,
            r matches Ok(s) ==> {
                &&& config matches IpSourceConfig::Http { url, interval_secs }
                &&& s.url@ == url@
                &&& s.poll_interval_secs == interval_secs
                &&& s.version is None
                &&& s.current_ip is None
                &&& s.last_known_ip is None
            },
            r matches Err(e) ==> e@ == ErrorView::Config("Invalid config for HTTP IP source"@),
    {
        match config {
            IpSourceConfig::Http { url, interval_secs } => Ok(
                HttpIpSource::with_interval(url.clone(), None, *interval_secs),
            ),
            _ => Err(Error::config("Invalid config for HTTP IP source")),
        }
    }
}

/// Registers `factory` for IP sources of the type `http`.
pub fn register<P, I, S>(registry: &mut ProviderRegistry<P, I, S>, factory: I)
    requires
        old(registry).wf(),
    ensures
        final(registry).wf(),
        final(registry).ip_sources() == old(registry).ip_sources().insert("http"@, factory),
        final(registry).providers() == old(registry).providers(),
        final(registry).state_stores() == old(registry).state_stores(),
{
    registry.register_ip_source("http", factory);
}

} // verus!
