use vstd::prelude::*;
use crate::error::{BAD_GATEWAY, ProxyError};

verus! {

/// The method of an inbound request.
#[derive(PartialEq, Eq, Structural, Clone, Copy, Debug)]
pub enum RequestMethod {
    Get,
    Post,
    Put,
    Delete,
    Head,
    Options,
    Connect,
    Patch,
    Trace,
    /// Any method outside the standard set.
    Extension,
}

/// Where an inbound request goes.
#[derive(PartialEq, Eq, Structural, Clone, Copy, Debug)]
pub enum Route {
    /// Complete the upgrade and relay WebSocket frames.
    Relay,
    /// Re-issue the request upstream and return the upstream response.
    Forward,
    /// Answer with the error at once; nothing is sent upstream.
    Reject(ProxyError),
}

/// The route of a request that is an upgrade handshake or not, with `m`.
pub open spec fn route_of(is_upgrade: bool, m: RequestMethod) -> Route {
    if is_upgrade {
        Route::Relay
    } else if m == RequestMethod::Get || m == RequestMethod::Post {
        Route::Forward
    } else {
        Route::Reject(ProxyError::UnsupportedMethod)
    }
}

/// Chooses between the WebSocket relay and the HTTP forwarder. An upgrade
/// handshake is relayed whatever its method; a plain request is forwarded
/// only for `GET` and `POST`.
pub fn dispatch(is_upgrade: bool, method: RequestMethod) -> (r: Route)
    ensures
        r == route_of(is_upgrade, method),
        r is Relay <==> is_upgrade,
        r is Forward <==> !is_upgrade && (method == RequestMethod::Get || method == RequestMethod::Post),
{
    if is_upgrade {
        Route::Relay
    } else {
        match method {
            RequestMethod::Get | RequestMethod::Post => Route::Forward,
            _ => Route::Reject(ProxyError::UnsupportedMethod),
        }
    }
}

/// What one upstream HTTP exchange gave.
#[derive(Clone, Copy, Debug)]
pub enum UpstreamOutcome {
    /// A response with this status came back, and its body was read whole.
    Responded(u16),
    /// A response came back, but reading its body failed.
    BodyFailed,
    /// No response came back; the error may carry a status of its own.
    Failed(Option<u16>),
}

/// The status for the caller after `o`, or the error that answers it.
pub open spec fn outcome_status(o: UpstreamOutcome) -> Result<u16, ProxyError> {
    match o {
        UpstreamOutcome::Responded(s) => Ok(s),
        UpstreamOutcome::BodyFailed => Err(ProxyError::TransportError),
        UpstreamOutcome::Failed(None) => Err(ProxyError::UpstreamUnreachable(BAD_GATEWAY)),
        UpstreamOutcome::Failed(Some(s)) => Err(ProxyError::UpstreamUnreachable(s)),
    }
}

/// The upstream's own status on success; `TransportError` when the body was
/// cut short; `UpstreamUnreachable` with the error's status, or 502 Bad
/// Gateway when it has none, when no response came back.
pub fn upstream_status(o: UpstreamOutcome) -> (r: Result<u16, ProxyError>)
    ensures
        r == outcome_status(o),
{
    match o {
        UpstreamOutcome::Responded(s) => Ok(s),
        UpstreamOutcome::BodyFailed => Err(ProxyError::TransportError),
        UpstreamOutcome::Failed(status) => match status {
            Some(s) => Err(ProxyError::UpstreamUnreachable(s)),
            None => Err(ProxyError::UpstreamUnreachable(BAD_GATEWAY)),
        },
    }
}

} // verus!
