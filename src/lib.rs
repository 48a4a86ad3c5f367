//! A reverse-proxy core: the upstream description, the URI rewriter, the
//! dispatch decision, and the pump state machine of a WebSocket relay.

pub mod config;
pub mod error;
pub mod gate;
pub mod relay;
pub mod uri;

pub use config::ProxyConfig;
pub use config::ProxyConfigView;
pub use error::{ProxyError, BAD_GATEWAY, INTERNAL_SERVER_ERROR, METHOD_NOT_ALLOWED};
pub use uri::{build_request_uri, Protocol};
pub use gate::{dispatch, upstream_status, RequestMethod, Route, UpstreamOutcome};
pub use relay::{
    handshake_action, pump_step, Direction, HandshakeAction, PumpAction, PumpEvent, PumpState,
    RelaySession,
};
