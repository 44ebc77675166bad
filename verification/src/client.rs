//! The resolver client: one endpoint, one transport mode, any number of
//! resolutions.

use crate::endpoint::{
    endpoint_of, has_http_scheme, is_override_host, normalized_url, Endpoint, EndpointView,
};
use crate::error::{ConfigError, Error};
use crate::resolution::{begin, start, Step};
use crate::transport::TransportMode;
use vstd::prelude::*;

verus! {

/// A DNS-over-HTTPS client.
///
/// It sends every query to the endpoint it was made with, in the transport
/// mode it was made with. It keeps nothing between two resolutions.
#[derive(Debug)]
pub struct Client {
    endpoint: Endpoint,
    mode: TransportMode,
}

/// What a [`Client`] holds.
pub struct ClientView {
    pub endpoint: EndpointView,
    pub mode: TransportMode,
}

impl ClientView {
    /// What holds of every client: its endpoint is in order.
    pub open spec fn wf(self) -> bool {
        self.endpoint.wf()
    }

    /// The default client: it posts its queries to the well-known endpoint.
    pub open spec fn well_known() -> ClientView {
        ClientView { endpoint: EndpointView::well_known(), mode: TransportMode::BinaryPost }
    }
}

impl View for Client {
    type V = ClientView;

    closed spec fn view(&self) -> ClientView {
        ClientView { endpoint: self.endpoint@, mode: self.mode }
    }
}

/// The client that the constructors make of the endpoint text `url` and the
/// override host `host`: one that posts its queries to the normalised URL.
///
/// There is none where `url` is no absolute URL, where it is not an HTTP(S)
/// URL, or where `host` is not a DNS name that a header can hold; the three
/// are looked for in this order.
pub open spec fn client_for(url: Seq<char>, host: Option<Seq<char>>) -> Result<ClientView, Error> {
    match normalized_url(url) {
        None => Err(Error::Config(ConfigError::InvalidUrl)),
        Some(normalized) => match endpoint_of(normalized, host) {
            Ok(endpoint) => Ok(ClientView { endpoint, mode: TransportMode::BinaryPost }),
            Err(error) => Err(error),
        },
    }
}

/// Where a client cannot be constructed, the error says that the
/// configuration is at fault, and a text that is no absolute URL is always
/// answered so. No step of a resolution, and so no request, comes of a
/// client that was not constructed.
pub proof fn lemma_construction_fails_with_config_error(url: Seq<char>, host: Option<Seq<char>>)
    ensures
        client_for(url, host) matches Err(error) ==> error is Config,
        normalized_url(url) is None ==> client_for(url, host) == Err::<ClientView, Error>(
            Error::Config(ConfigError::InvalidUrl),
        ),
        client_for(url, host) matches Ok(client) ==> client.wf(),
{
}

/// A client is constructed exactly where the endpoint text is an absolute
/// HTTP(S) URL and the override host, if there is one, is a DNS name that a
/// header can hold. No other host is refused: a host that a resolution takes
/// for a name, and that can be sent, is taken.
pub proof fn lemma_construction_succeeds_iff(url: Seq<char>, host: Option<Seq<char>>)
    ensures
        client_for(url, host) is Ok <==> {
            &&& normalized_url(url) matches Some(normalized) && has_http_scheme(normalized)
            &&& host matches Some(name) ==> is_override_host(name)
        },
        client_for(url, host) matches Ok(client) ==> client.endpoint.host == host,
{
}

impl Client {
    /// The invariant of the type: every client is in order.
    #[verifier::type_invariant]
    pub open spec fn inv(self) -> bool {
        self@.wf()
    }

    /// A client for the resolver at `url`, whose host is found and verified
    /// as the transport does by default.
    pub fn from_url(url: &str) -> (res: Result<Client, Error>)
        ensures
            match client_for(url@, None) {
                Ok(view) => res matches Ok(client) && client@ == view,
                Err(error) => res matches Err(e) && e == error,
            },
    {
        match Endpoint::parse(url, None) {
            Ok(endpoint) => Ok(Client::from_endpoint(endpoint)),
            Err(error) => Err(error),
        }
    }

    /// A client for the resolver at `url` that presents `host` to the server
    /// as the host it asks for. With it the URL can name the resolver by its
    /// IP address, so that no name has to be resolved before the first query.
    ///
    /// The transport of such a client does not check that the server's
    /// certificate is made out to the URL's host; see
    /// [`Client::verifies_hostname`].
    pub fn from_url_with_hostname(url: &str, host: String) -> (res: Result<Client, Error>)
        ensures
            match client_for(url@, Some(host@)) {
                Ok(view) => res matches Ok(client) && client@ == view,
                Err(error) => res matches Err(e) && e == error,
            },
    {
        match Endpoint::parse(url, Some(host)) {
            Ok(endpoint) => Ok(Client::from_endpoint(endpoint)),
            Err(error) => Err(error),
        }
    }

    /// A client for `endpoint` that posts its queries.
    pub fn from_endpoint(endpoint: Endpoint) -> (client: Client)
        ensures
            client@ == (ClientView { endpoint: endpoint@, mode: TransportMode::BinaryPost }),
    {
        proof {
            use_type_invariant(&endpoint);
        }
        Client { endpoint, mode: TransportMode::BinaryPost }
    }

    /// The same client with the transport mode `mode`.
    pub fn with_mode(self, mode: TransportMode) -> (client: Client)
        ensures
            client@ == (ClientView { endpoint: self@.endpoint, mode }),
    {
        proof {
            use_type_invariant(&self);
        }
        Client { endpoint: self.endpoint, mode }
    }

    /// The endpoint that the queries go to.
    pub fn endpoint(&self) -> (endpoint: &Endpoint)
        ensures
            endpoint@ == self@.endpoint,
    {
        &self.endpoint
    }

    /// The transport mode.
    pub fn mode(&self) -> (mode: TransportMode)
        ensures
            mode == self@.mode,
    {
        self.mode
    }

    /// Whether the transport has to check that the server's certificate is
    /// made out to the host of the URL. It has to unless the client presents
    /// an override host. This is the one check that such a client gives up:
    /// the certificate's chain and validity are checked in every case.
    pub fn verifies_hostname(&self) -> (verifies: bool)
        ensures
            verifies == (self@.endpoint.host is None),
    {
        self.endpoint.host().is_none()
    }

    /// Begins the resolution of `host` to its IPv6 and IPv4 addresses.
    ///
    /// The result is the first step of the resolution. It asks for the
    /// exchange that carries the `AAAA` query, or is the end already, with
    /// [`Error::Encode`], where `host` is not a DNS name: no request is made
    /// for such a name.
    pub fn resolve_host(&self, host: &str) -> (step: Step)
        ensures
            step@ == begin(self@, host@),
    {
        start(self.clone(), host)
    }
}

impl Clone for Client {
    fn clone(&self) -> (copy: Client)
        ensures
            copy@ == self@,
    {
        proof {
            use_type_invariant(self);
        }
        Client { endpoint: self.endpoint.clone(), mode: self.mode }
    }
}

impl Default for Client {
    /// The client for the well-known endpoint.
    fn default() -> (client: Client)
        ensures
            client@ == ClientView::well_known(),
    {
        Client::from_endpoint(Endpoint::well_known())
    }
}

} // verus!
