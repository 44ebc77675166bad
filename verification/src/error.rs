//! The errors a resolution or a client construction can end in.

use vstd::prelude::*;

verus! {

/// Why a client could not be constructed.
#[derive(Clone, Copy, Debug, PartialEq, Eq, Structural)]
pub enum ConfigError {
    /// The endpoint is not a valid absolute URL.
    InvalidUrl,
    /// The endpoint is a valid URL, but neither `http` nor `https`.
    UnsupportedScheme,
    /// The override host cannot be the value of the `Host` header: it is no
    /// DNS name, or a header cannot hold it.
    InvalidHeaderValue,
}

/// Why an HTTP exchange did not yield a usable reply.
#[derive(Clone, Copy, Debug, PartialEq, Eq, Structural)]
pub enum TransportError {
    /// No connection could be established (refused, unreachable, TLS failure).
    Connect,
    /// The exchange did not complete in time.
    Timeout,
    /// The endpoint answered with a status outside `200..=299`.
    Status(u16),
    /// Any other failure of the HTTP layer.
    Other,
}

/// The one error a caller sees for a failed call.
#[derive(Clone, Copy, Debug, PartialEq, Eq, Structural)]
pub enum Error {
    /// The client could not be constructed.
    Config(ConfigError),
    /// The host name is not a syntactically valid DNS name.
    Encode,
    /// The HTTP exchange failed.
    Transport(TransportError),
    /// The reply is not a well-formed DNS message.
    Decode,
}

impl From<ConfigError> for Error {
    fn from(error: ConfigError) -> (wrapped: Error) {
        Error::Config(error)
    }
}

impl vstd::std_specs::convert::FromSpecImpl<ConfigError> for Error {
    open spec fn obeys_from_spec() -> bool {
        true
    }

    open spec fn from_spec(error: ConfigError) -> Error {
        Error::Config(error)
    }
}

impl From<TransportError> for Error {
    fn from(error: TransportError) -> (wrapped: Error) {
        Error::Transport(error)
    }
}

impl vstd::std_specs::convert::FromSpecImpl<TransportError> for Error {
    open spec fn obeys_from_spec() -> bool {
        true
    }

    open spec fn from_spec(error: TransportError) -> Error {
        Error::Transport(error)
    }
}

impl Error {
    /// What [`Error::message`] says of each error.
    pub open spec fn message_text(self) -> Seq<char> {
        match self {
            Error::Config(ConfigError::InvalidUrl) => "The endpoint is not a valid URL"@,
            Error::Config(ConfigError::UnsupportedScheme) => "The endpoint is not an HTTP(S) URL"@,
            Error::Config(ConfigError::InvalidHeaderValue) =>
                "The override host is not a DNS name"@,
            Error::Encode => "The host is not a DNS name"@,
            Error::Transport(TransportError::Connect) => "Failed to connect to the resolver"@,
            Error::Transport(TransportError::Timeout) => "The resolver did not answer in time"@,
            Error::Transport(TransportError::Status(_)) => "The resolver refused the request"@,
            Error::Transport(TransportError::Other) =>
                "Failed to exchange messages with the resolver"@,
            Error::Decode => "Failed to parse DNS protocol"@,
        }
    }

    /// One line that says what went wrong, for whoever reads the error.
    pub fn message(&self) -> (text: &'static str)
        ensures
            text@ == self.message_text(),
    {
        match self {
            Error::Config(ConfigError::InvalidUrl) => "The endpoint is not a valid URL",
            Error::Config(ConfigError::UnsupportedScheme) => "The endpoint is not an HTTP(S) URL",
            Error::Config(ConfigError::InvalidHeaderValue) => {
                "The override host is not a DNS name"
            },
            Error::Encode => "The host is not a DNS name",
            Error::Transport(TransportError::Connect) => "Failed to connect to the resolver",
            Error::Transport(TransportError::Timeout) => "The resolver did not answer in time",
            Error::Transport(TransportError::Status(_)) => "The resolver refused the request",
            Error::Transport(TransportError::Other) => {
                "Failed to exchange messages with the resolver"
            },
            Error::Decode => "Failed to parse DNS protocol",
        }
    }
}

} // verus!
