//! The error kinds of the pipeline.

use vstd::prelude::*;

verus! {

/// What went wrong, by kind, with a message for the operator.
#[derive(Debug, PartialEq, Eq)]
pub enum Error {
    /// The IP source could not produce an address.
    IpSource(String),
    /// The DNS provider refused or failed a call.
    DnsProvider(String),
    /// The state store could not read or persist state.
    StateStore(String),
    /// The configuration is invalid.
    Config(String),
    /// A transport failed below HTTP.
    Network(String),
    /// A document could not be serialised or parsed.
    Json(String),
    /// An HTTP exchange failed.
    Http(String),
    /// The provider rejected the credentials.
    Authentication(String),
    /// The provider asked to slow down.
    RateLimited(String),
    /// The record, zone or interface does not exist.
    NotFound(String),
    /// A caller passed a value that cannot be used.
    InvalidInput(String),
    /// An error attributed to a named provider.
    Provider {
        /// The provider's name.
        provider: String,
        /// What the provider reported.
        message: String,
    },
    /// Anything else.
    Other(String),
}

/// An [`Error`] with its texts as character sequences.
pub enum ErrorView {
    IpSource(Seq<char>),
    DnsProvider(Seq<char>),
    StateStore(Seq<char>),
    Config(Seq<char>),
    Network(Seq<char>),
    Json(Seq<char>),
    Http(Seq<char>),
    Authentication(Seq<char>),
    RateLimited(Seq<char>),
    NotFound(Seq<char>),
    InvalidInput(Seq<char>),
    Provider { provider: Seq<char>, message: Seq<char> },
    Other(Seq<char>),
}

impl ErrorView {
    /// The line shown to the operator: the kind's prefix followed by the message.
    pub open spec fn text(self) -> Seq<char> {
        match self {
            ErrorView::IpSource(m) => "IP source error: "@ + m,
            ErrorView::DnsProvider(m) => "DNS provider error: "@ + m,
            ErrorView::StateStore(m) => "State store error: "@ + m,
            ErrorView::Config(m) => "Configuration error: "@ + m,
            ErrorView::Network(m) => "Network error: "@ + m,
            ErrorView::Json(m) => "JSON error: "@ + m,
            ErrorView::Http(m) => "HTTP error: "@ + m,
            ErrorView::Authentication(m) => "Authentication failed: "@ + m,
            ErrorView::RateLimited(m) => "Rate limited: "@ + m,
            ErrorView::NotFound(m) => "Record not found: "@ + m,
            ErrorView::InvalidInput(m) => "Invalid input: "@ + m,
            ErrorView::Provider { provider, message } => "Provider error ("@ + provider + "): "@
                + message,
            ErrorView::Other(m) => m,
        }
    }
}

impl View for Error {
    type V = ErrorView;

    open spec fn view(&self) -> ErrorView {
        match self {
            Error::IpSource(m) => ErrorView::IpSource(m@),
            Error::DnsProvider(m) => ErrorView::DnsProvider(m@),
            Error::StateStore(m) => ErrorView::StateStore(m@),
            Error::Config(m) => ErrorView::Config(m@),
            Error::Network(m) => ErrorView::Network(m@),
            Error::Json(m) => ErrorView::Json(m@),
            Error::Http(m) => ErrorView::Http(m@),
            Error::Authentication(m) => ErrorView::Authentication(m@),
            Error::RateLimited(m) => ErrorView::RateLimited(m@),
            Error::NotFound(m) => ErrorView::NotFound(m@),
            Error::InvalidInput(m) => ErrorView::InvalidInput(m@),
            Error::Provider { provider, message } => ErrorView::Provider {
                provider: provider@,
                message: message@,
            },
            Error::Other(m) => ErrorView::Other(m@),
        }
    }
}

impl Clone for Error {
    fn clone(&self) -> (e: Error)
        ensures
            e == *self,
    {
        match self {
            Error::IpSource(m) => Error::IpSource(m.clone()),
            Error::DnsProvider(m) => Error::DnsProvider(m.clone()),
            Error::StateStore(m) => Error::StateStore(m.clone()),
            Error::Config(m) => Error::Config(m.clone()),
            Error::Network(m) => Error::Network(m.clone()),
            Error::Json(m) => Error::Json(m.clone()),
            Error::Http(m) => Error::Http(m.clone()),
            Error::Authentication(m) => Error::Authentication(m.clone()),
            Error::RateLimited(m) => Error::RateLimited(m.clone()),
            Error::NotFound(m) => Error::NotFound(m.clone()),
            Error::InvalidInput(m) => Error::InvalidInput(m.clone()),
            Error::Provider { provider, message } => Error::Provider {
                provider: provider.clone(),
                message: message.clone(),
            },
            Error::Other(m) => Error::Other(m.clone()),
        }
    }
}

impl Error {
    /// An error of the IP source.
    pub fn ip_source(msg: &str) -> (e: Error)
        ensures
            e@ == ErrorView::IpSource(msg@),
    {
        Error::IpSource(String::from_str(msg))
    }

    /// An error of the DNS provider.
    pub fn dns_provider(msg: &str) -> (e: Error)
        ensures
            e@ == ErrorView::DnsProvider(msg@),
    {
        Error::DnsProvider(String::from_str(msg))
    }

    /// An error of the state store.
    pub fn state_store(msg: &str) -> (e: Error)
        ensures
            e@ == ErrorView::StateStore(msg@),
    {
        Error::StateStore(String::from_str(msg))
    }

    /// A configuration error.
    pub fn config(msg: &str) -> (e: Error)
        ensures
            e@ == ErrorView::Config(msg@),
    {
        Error::Config(String::from_str(msg))
    }

    /// A transport error.
    pub fn network(msg: &str) -> (e: Error)
        ensures
            e@ == ErrorView::Network(msg@),
    {
        Error::Network(String::from_str(msg))
    }

    /// A serialisation error.
    pub fn json(msg: &str) -> (e: Error)
        ensures
            e@ == ErrorView::Json(msg@),
    {
        Error::Json(String::from_str(msg))
    }

    /// An HTTP error.
    pub fn http(msg: &str) -> (e: Error)
        ensures
            e@ == ErrorView::Http(msg@),
    {
        Error::Http(String::from_str(msg))
    }

    /// An authentication error.
    pub fn auth(msg: &str) -> (e: Error)
        ensures
            e@ == ErrorView::Authentication(msg@),
    {
        Error::Authentication(String::from_str(msg))
    }

    /// A rate-limit error.
    pub fn rate_limited(msg: &str) -> (e: Error)
        ensures
            e@ == ErrorView::RateLimited(msg@),
    {
        Error::RateLimited(String::from_str(msg))
    }

    /// A "not found" error.
    pub fn not_found(msg: &str) -> (e: Error)
        ensures
            e@ == ErrorView::NotFound(msg@),
    {
        Error::NotFound(String::from_str(msg))
    }

    /// An invalid-input error.
    pub fn invalid_input(msg: &str) -> (e: Error)
        ensures
            e@ == ErrorView::InvalidInput(msg@),
    {
        Error::InvalidInput(String::from_str(msg))
    }

    /// An error attributed to the provider named `provider`.
    pub fn provider(provider: &str, message: &str) -> (e: Error)
        ensures
            e@ == (ErrorView::Provider { provider: provider@, message: message@ }),
    {
        Error::Provider { provider: String::from_str(provider), message: String::from_str(message) }
    }

    /// An error of no particular kind.
    pub fn other(msg: &str) -> (e: Error)
        ensures
            e@ == ErrorView::Other(msg@),
    {
        Error::Other(String::from_str(msg))
    }

    /// The line shown to the operator: the kind's prefix followed by the message.
    pub fn to_text(&self) -> (s: String)
        ensures
            s@ == self@.text(),
    {
        match self {
            Error::IpSource(m) => String::from_str("IP source error: ").concat(m.as_str()),
            Error::DnsProvider(m) => String::from_str("DNS provider error: ").concat(m.as_str()),
            Error::StateStore(m) => String::from_str("State store error: ").concat(m.as_str()),
            Error::Config(m) => String::from_str("Configuration error: ").concat(m.as_str()),
            Error::Network(m) => String::from_str("Network error: ").concat(m.as_str()),
            Error::Json(m) => String::from_str("JSON error: ").concat(m.as_str()),
            Error::Http(m) => String::from_str("HTTP error: ").concat(m.as_str()),
            Error::Authentication(m) => String::from_str("Authentication failed: ").concat(
                m.as_str(),
            ),
            Error::RateLimited(m) => String::from_str("Rate limited: ").concat(m.as_str()),
            Error::NotFound(m) => String::from_str("Record not found: ").concat(m.as_str()),
            Error::InvalidInput(m) => String::from_str("Invalid input: ").concat(m.as_str()),
            Error::Provider { provider, message } => String::from_str("Provider error (").concat(
                provider.as_str(),
            ).concat("): ").concat(message.as_str()),
            Error::Other(m) => m.clone(),
        }
    }
}

} // verus!
