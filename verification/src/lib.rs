//! Resolve hostnames by tunnelling DNS queries through HTTP(S).
//!
//! The crate holds the protocol logic of a DNS-over-HTTPS client: building
//! the query, placing it into an HTTP request, judging the reply, and
//! extracting and ordering the addresses. Performing the HTTP exchange is
//! left to the caller, who drives a resolution step by step:
//!
//! ```ignore
//! let mut step = dnsoverhttps::resolve_host("example.com");
//! let addresses = loop {
//!     match step {
//!         Step::Exchange(pending) => {
//!             let reply = send(pending.request());
//!             step = pending.resume(reply);
//!         }
//!         Step::Done(result) => break result,
//!     }
//! };
//! ```
//!
//! The default resolver is `https://1.1.1.1/dns-query`.

pub mod base64url;
pub mod client;
pub mod codec;
pub mod endpoint;
pub mod error;
pub mod header;
pub mod record;
pub mod resolution;
pub mod transport;

pub use client::Client;
pub use error::Error;
pub use record::IpAddr;
pub use resolution::{Pending, Step};
pub use transport::{HttpRequest, Reply};

use client::ClientView;
use resolution::begin;
use vstd::prelude::*;

verus! {

/// Begins the resolution of `host` with the default client.
///
/// See [`Client::resolve_host`].
pub fn resolve_host(host: &str) -> (step: Step)
    ensures
        step@ == begin(ClientView::well_known(), host@),
{
    Client::default().resolve_host(host)
}

} // verus!
