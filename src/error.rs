use vstd::prelude::*;

verus! {

/// Status sent to the caller when the upstream cannot be reached.
pub const BAD_GATEWAY: u16 = 502;

/// Status sent for a method that the forwarder does not relay.
pub const METHOD_NOT_ALLOWED: u16 = 405;

/// Status sent when the proxy itself is misconfigured.
pub const INTERNAL_SERVER_ERROR: u16 = 500;

/// Why a request or a session could not be forwarded.
#[derive(PartialEq, Eq, Structural, Clone, Copy, Debug)]
pub enum ProxyError {
    /// The configured target is not a URI authority.
    InvalidTarget,
    /// The inbound method is neither `GET` nor `POST`.
    UnsupportedMethod,
    /// The upstream could not be reached; holds the status to answer with.
    UpstreamUnreachable(u16),
    /// A socket or a body failed in the middle of an exchange.
    TransportError,
}

/// The status that answers `e`.
pub open spec fn status_of(e: ProxyError) -> u16 {
    match e {
        ProxyError::InvalidTarget => INTERNAL_SERVER_ERROR,
        ProxyError::UnsupportedMethod => METHOD_NOT_ALLOWED,
        ProxyError::UpstreamUnreachable(s) => s,
        ProxyError::TransportError => BAD_GATEWAY,
    }
}

impl ProxyError {
    /// The HTTP status code that reports this error to the caller.
    pub fn status_code(&self) -> (r: u16)
        ensures
            r == status_of(*self),
    {
        match self {
            ProxyError::InvalidTarget => INTERNAL_SERVER_ERROR,
            ProxyError::UnsupportedMethod => METHOD_NOT_ALLOWED,
            ProxyError::UpstreamUnreachable(s) => *s,
            ProxyError::TransportError => BAD_GATEWAY,
        }
    }
}

} // verus!
