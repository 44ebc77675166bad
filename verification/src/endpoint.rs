//! The resolver endpoint: where queries are sent.

use crate::codec::{is_dns_name, is_valid_dns_name};
use crate::error::{ConfigError, Error};
use crate::header::{is_header_value, is_valid_header_value};
use url::ParseError;
use vstd::prelude::*;
use vstd::string::*;

verus! {

/// The error type of the URL parser.
#[verifier::external_type_specification]
#[verifier::external_body]
pub struct ExParseError(ParseError);

/// The normalised text of the absolute URL that `text` is parsed as, or
/// `None` where `text` is no absolute URL.
pub uninterp spec fn normalized_url(text: Seq<char>) -> Option<Seq<char>>;

/// Calls `Url::parse` of `reqwest` (the `url` crate's) and turns the URL
/// back into text by its `Into<String>`. Assumed: the outcome depends on
/// `text` alone, so it is the one that [`normalized_url`] names.
#[verifier::external_body]
fn parse_url(text: &str) -> (res: Result<String, ParseError>)
    ensures
        res matches Ok(url) ==> normalized_url(text@) == Some(url@),
        res is Err ==> normalized_url(text@) is None,
{
    Ok(reqwest::Url::parse(text)?.into())
}

/// Whether `url` begins with the scheme `http` or `https`.
pub open spec fn has_http_scheme(url: Seq<char>) -> bool {
    "http://"@.is_prefix_of(url) || "https://"@.is_prefix_of(url)
}

/// Whether `text` begins with `prefix`.
fn starts_with(text: &str, prefix: &str) -> (found: bool)
    ensures
        found == prefix@.is_prefix_of(text@),
{
    let n = prefix.unicode_len();
    if text.unicode_len() < n {
        return false;
    }
    let mut i: usize = 0;
    while i < n
        invariant
            n == prefix@.len(),
            n <= text@.len(),
            i <= n,
            forall|k: int| 0 <= k < i ==> text@[k] == prefix@[k],
        decreases n - i,
    {
        if text.get_char(i) != prefix.get_char(i) {
            assert(text@.subrange(0, n as int)[i as int] != prefix@[i as int]);
            return false;
        }
        i += 1;
    }
    assert(text@.subrange(0, n as int) =~= prefix@);
    true
}

/// A resolver endpoint: the target URL and, optionally, the host name to
/// present to the server in place of the URL's own host. The latter serves
/// to reach a resolver by a literal IP address before any name can be
/// resolved.
#[derive(Debug)]
pub struct Endpoint {
    url: String,
    host: Option<String>,
}

/// What an [`Endpoint`] holds.
pub struct EndpointView {
    pub url: Seq<char>,
    pub host: Option<Seq<char>>,
}

impl View for Endpoint {
    type V = EndpointView;

    closed spec fn view(&self) -> EndpointView {
        EndpointView {
            url: self.url@,
            host: self.host.deep_view(),
        }
    }
}

/// Whether `host` can be an override host: whether it is a DNS name, as the
/// codec judges the names that are resolved, and can be the value of the
/// `Host` header. A name with a dot at its end is one, and so is a name with
/// an underscore in it; whatever can be resolved and sent can be presented.
pub open spec fn is_override_host(host: Seq<char>) -> bool {
    is_dns_name(host) && is_header_value(host)
}

impl EndpointView {
    /// The endpoint of the default client: a public resolver, named by its
    /// IP address.
    pub open spec fn well_known() -> EndpointView {
        EndpointView { url: "https://1.1.1.1/dns-query"@, host: None }
    }

    /// What holds of every endpoint: the URL is an HTTP(S) URL, and the
    /// override host, if there is one, is a DNS name that a header can hold.
    pub open spec fn wf(self) -> bool {
        &&& has_http_scheme(self.url)
        &&& self.host matches Some(host) ==> is_override_host(host)
    }
}

/// What [`Endpoint::new`] makes of a URL and an override host.
pub open spec fn endpoint_of(url: Seq<char>, host: Option<Seq<char>>) -> Result<
    EndpointView,
    Error,
> {
    if !has_http_scheme(url) {
        Err(Error::Config(ConfigError::UnsupportedScheme))
    } else if host is Some && !is_override_host(host.unwrap()) {
        Err(Error::Config(ConfigError::InvalidHeaderValue))
    } else {
        Ok(EndpointView { url, host })
    }
}

impl Endpoint {
    /// The invariant of the type: every endpoint is in order.
    #[verifier::type_invariant]
    pub open spec fn inv(self) -> bool {
        self@.wf()
    }

    /// The endpoint at the normalised URL `url`, with the override host
    /// `host`.
    ///
    /// Fails where `url` is not an HTTP(S) URL, and else where `host` is not
    /// a DNS name that a header can hold.
    pub fn new(url: String, host: Option<String>) -> (res: Result<Endpoint, Error>)
        ensures
            match endpoint_of(url@, host.deep_view()) {
                Ok(view) => res matches Ok(endpoint) && endpoint@ == view,
                Err(error) => res matches Err(e) && e == error,
            },
    {
        if !starts_with(url.as_str(), "http://") && !starts_with(url.as_str(), "https://") {
            return Err(Error::from(ConfigError::UnsupportedScheme));
        }
        if let Some(name) = &host {
            if !is_valid_dns_name(name.as_str()) || !is_valid_header_value(name.as_str()) {
                return Err(Error::from(ConfigError::InvalidHeaderValue));
            }
        }
        Ok(Endpoint { url, host })
    }

    /// Parses `text` as the endpoint's URL and makes the endpoint at it, with
    /// the override host `host`.
    ///
    /// Fails where `text` is no absolute URL, and else as [`Endpoint::new`]
    /// does on the normalised URL.
    pub fn parse(text: &str, host: Option<String>) -> (res: Result<Endpoint, Error>)
        ensures
            match normalized_url(text@) {
                None => res matches Err(e) && e == Error::Config(ConfigError::InvalidUrl),
                Some(url) => match endpoint_of(url, host.deep_view()) {
                    Ok(view) => res matches Ok(endpoint) && endpoint@ == view,
                    Err(error) => res matches Err(e) && e == error,
                },
            },
    {
        match parse_url(text) {
            Ok(url) => Endpoint::new(url, host),
            Err(_) => Err(Error::from(ConfigError::InvalidUrl)),
        }
    }

    /// The endpoint that a client has when none is named: the resolver at
    /// `https://1.1.1.1/dns-query`.
    pub fn well_known() -> (endpoint: Endpoint)
        ensures
            endpoint@ == EndpointView::well_known(),
    {
        proof {
            reveal_strlit("https://");
            reveal_strlit("https://1.1.1.1/dns-query");
            assert("https://1.1.1.1/dns-query"@.subrange(0, 8) =~= "https://"@);
        }
        Endpoint { url: "https://1.1.1.1/dns-query".to_owned(), host: None }
    }

    /// The target URL.
    pub fn url(&self) -> (url: &str)
        ensures
            url@ == self@.url,
            has_http_scheme(url@),
    {
        proof {
            use_type_invariant(self);
        }
        self.url.as_str()
    }

    /// The host name to present to the server, if it is not the URL's own.
    pub fn host(&self) -> (host: Option<&str>)
        ensures
            match host {
                Some(h) => self@.host == Some(h@) && is_override_host(h@),
                None => self@.host is None,
            },
    {
        proof {
            use_type_invariant(self);
        }
        match &self.host {
            Some(host) => Some(host.as_str()),
            None => None,
        }
    }
}

impl Clone for Endpoint {
    fn clone(&self) -> (copy: Endpoint)
        ensures
            copy@ == self@,
    {
        proof {
            use_type_invariant(self);
        }
        let host = match &self.host {
            Some(host) => Some(host.clone()),
            None => None,
        };
        Endpoint { url: self.url.clone(), host }
    }
}

} // verus!
