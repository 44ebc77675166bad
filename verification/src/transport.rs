//! Placing a query into an HTTP request, and judging the reply.
//!
//! The exchange itself is not performed here: the library hands out an
//! [`HttpRequest`] and takes back a [`Reply`].

use crate::base64url::{decoding, digit, encode, encoding, symbol};
use crate::endpoint::{Endpoint, EndpointView};
use crate::error::{Error, TransportError};
use vstd::prelude::*;
use vstd::string::*;

verus! {

/// How a query is placed into a request. A client has one mode for all its
/// queries.
#[derive(Clone, Copy, Debug, PartialEq, Eq, Structural)]
pub enum TransportMode {
    /// The query is the body of a `POST` request.
    BinaryPost,
    /// The query is a base64url-encoded parameter of a `GET` request.
    Base64Get,
}

/// The method of a request.
#[derive(Clone, Copy, Debug, PartialEq, Eq, Structural)]
pub enum Method {
    Get,
    Post,
}

/// One HTTP request, ready to be sent.
#[derive(Debug, PartialEq, Eq)]
pub struct HttpRequest {
    /// The method.
    pub method: Method,
    /// The full target, query parameters included.
    pub url: String,
    /// The value of the `Host` header, if it is not to be the host of the
    /// target.
    pub host: Option<String>,
    /// The value of the `Content-Type` header, if the request has a body.
    pub content_type: Option<String>,
    /// The body; empty for a `GET` request.
    pub body: Vec<u8>,
}

/// What an [`HttpRequest`] holds.
pub struct HttpRequestView {
    pub method: Method,
    pub url: Seq<char>,
    pub host: Option<Seq<char>>,
    pub content_type: Option<Seq<char>>,
    pub body: Seq<u8>,
}

impl View for HttpRequest {
    type V = HttpRequestView;

    open spec fn view(&self) -> HttpRequestView {
        HttpRequestView {
            method: self.method,
            url: self.url@,
            host: self.host.deep_view(),
            content_type: self.content_type.deep_view(),
            body: self.body@,
        }
    }
}

/// The request that carries the DNS message `query` to `endpoint` in mode
/// `mode`.
///
/// In binary mode the message is the body of a `POST` to the endpoint's URL,
/// marked as DNS wire format. In base64 mode it is the parameter `body` of a
/// `GET`, after an empty parameter `ct`. In either mode the request presents
/// the endpoint's override host, if it has one.
pub open spec fn request_for(
    mode: TransportMode,
    endpoint: EndpointView,
    query: Seq<u8>,
) -> HttpRequestView {
    match mode {
        TransportMode::BinaryPost => HttpRequestView {
            method: Method::Post,
            url: endpoint.url,
            host: endpoint.host,
            content_type: Some("application/dns-udpwireformat"@),
            body: query,
        },
        TransportMode::Base64Get => HttpRequestView {
            method: Method::Get,
            url: endpoint.url + "?ct=&body="@ + encoding(query),
            host: endpoint.host,
            content_type: None,
            body: Seq::empty(),
        },
    }
}

/// Places the DNS message `query` into a request to `endpoint`.
pub fn build_request(mode: TransportMode, endpoint: &Endpoint, query: Vec<u8>) -> (request:
    HttpRequest)
    ensures
        request@ == request_for(mode, endpoint@, query@),
{
    let host = match endpoint.host() {
        Some(host) => Some(host.to_owned()),
        None => None,
    };
    match mode {
        TransportMode::BinaryPost => HttpRequest {
            method: Method::Post,
            url: endpoint.url().to_owned(),
            host,
            content_type: Some("application/dns-udpwireformat".to_owned()),
            body: query,
        },
        TransportMode::Base64Get => {
            let mut target = endpoint.url().to_owned();
            target.append("?ct=&body=");
            target.append(encode(query.as_slice()).as_str());
            HttpRequest {
                method: Method::Get,
                url: target,
                host,
                content_type: None,
                body: Vec::new(),
            }
        },
    }
}

/// What came of one HTTP exchange.
#[derive(Debug, PartialEq, Eq)]
pub enum Reply {
    /// The server answered, with this status and this body.
    Response { status: u16, body: Vec<u8> },
    /// The exchange failed before any answer came.
    Failed(TransportError),
}

/// What a [`Reply`] holds.
pub enum ReplyView {
    Response { status: u16, body: Seq<u8> },
    Failed(TransportError),
}

impl View for Reply {
    type V = ReplyView;

    open spec fn view(&self) -> ReplyView {
        match *self {
            Reply::Response { status, body } => ReplyView::Response { status, body: body@ },
            Reply::Failed(failure) => ReplyView::Failed(failure),
        }
    }
}

/// The DNS message that a reply delivers: the body of a response with a
/// status from 200 to 299. Any other status is a failure of the transport,
/// as is an exchange that failed; the status is not looked at further.
pub open spec fn reply_message(reply: ReplyView) -> Result<Seq<u8>, Error> {
    match reply {
        ReplyView::Response { status, body } => if 200 <= status <= 299 {
            Ok(body)
        } else {
            Err(Error::Transport(TransportError::Status(status)))
        },
        ReplyView::Failed(failure) => Err(Error::Transport(failure)),
    }
}

/// Takes the DNS message out of a reply.
pub fn into_message(reply: Reply) -> (res: Result<Vec<u8>, Error>)
    ensures
        match reply_message(reply@) {
            Ok(message) => res matches Ok(body) && body@ == message,
            Err(error) => res matches Err(e) && e == error,
        },
{
    match reply {
        Reply::Response { status, body } => if 200 <= status && status <= 299 {
            Ok(body)
        } else {
            Err(Error::from(TransportError::Status(status)))
        },
        Reply::Failed(failure) => Err(Error::from(failure)),
    }
}

/// What follows the last `=` of `url`: the value of its last parameter.
pub open spec fn last_parameter(url: Seq<char>) -> Seq<char> {
    let k = choose|k: int|
        0 <= k < url.len() && url[k] == '=' && forall|j: int| k < j < url.len() ==> url[j] != '=';
    url.subrange(k + 1, url.len() as int)
}

/// The DNS message that a request carries: its body, or what its last
/// parameter encodes.
pub open spec fn payload(request: HttpRequestView) -> Option<Seq<u8>> {
    match request.method {
        Method::Post => Some(request.body),
        Method::Get => decoding(last_parameter(request.url)),
    }
}

/// In either mode the request carries the query unchanged: the server that
/// takes the payload out of the request has the very message that was put
/// in, whatever the mode and the endpoint.
pub proof fn lemma_modes_carry_the_same_query(endpoint: EndpointView, query: Seq<u8>)
    ensures
        payload(request_for(TransportMode::BinaryPost, endpoint, query)) == Some(query),
        payload(request_for(TransportMode::Base64Get, endpoint, query)) == Some(query),
{
    reveal_strlit("?ct=&body=");
    let target = endpoint.url + "?ct=&body="@ + encoding(query);
    let last = endpoint.url.len() as int + 9;
    assert(target[last] == '=');
    assert forall|j: int| last < j < target.len() implies target[j] != '=' by {
        let k = j - last - 1;
        assert(target[j] == encoding(query)[k]);
        assert(encoding(query)[k] == symbol(digit(query, k)));
    }
    let chosen = choose|k: int|
        0 <= k < target.len() && target[k] == '=' && forall|j: int|
            k < j < target.len() ==> target[j] != '=';
    assert(chosen == last);
    assert(last_parameter(target) =~= encoding(query));
    crate::base64url::lemma_decoding_inverts_encoding(query);
}

} // verus!
