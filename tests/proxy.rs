use poem_proxy::{
    build_request_uri, dispatch, handshake_action, pump_step, upstream_status, Direction,
    HandshakeAction, Protocol, ProxyConfig, ProxyError, PumpAction, PumpEvent, PumpState,
    RelaySession, RequestMethod, Route, UpstreamOutcome,
};

#[test]
fn it_works() {}

#[test]
fn new_config_has_every_flag_off() {
    let c = ProxyConfig::new("api.example.com".to_string());
    assert_eq!(c.target(), "api.example.com");
    assert!(!c.is_web_secure());
    assert!(!c.is_ws_secure());
    assert!(!c.supports_nesting());
}

#[test]
fn default_config_targets_localhost() {
    let c = ProxyConfig::default();
    assert_eq!(c.target(), "localhost:3000");
    assert!(!c.is_web_secure());
    assert!(!c.is_ws_secure());
    assert!(!c.supports_nesting());
}

#[test]
fn ws_setters_follow_their_names() {
    let mut c = ProxyConfig::new("h".to_string());
    c.ws_secure();
    assert!(c.is_ws_secure());
    c.ws_insecure();
    assert!(!c.is_ws_secure());
    assert!(!c.is_web_secure());
}

#[test]
fn web_setters_follow_their_names() {
    let mut c = ProxyConfig::new("h".to_string());
    c.web_secure();
    assert!(c.is_web_secure());
    c.web_insecure();
    assert!(!c.is_web_secure());
    assert!(!c.is_ws_secure());
}

#[test]
fn nesting_setters_chain() {
    let mut c = ProxyConfig::new("h".to_string());
    c.enable_nesting().web_secure().ws_secure();
    assert!(c.supports_nesting());
    assert!(c.is_web_secure());
    assert!(c.is_ws_secure());
    c.disable_nesting();
    assert!(!c.supports_nesting());
}

#[test]
fn without_nesting_the_path_is_dropped() {
    let c = ProxyConfig::new("api.example.com".to_string());
    let u = c.get_request_uri("/a/b?x=1", Protocol::Http);
    assert_eq!(u, Ok("http://api.example.com".to_string()));
    let v = c.get_request_uri("/other", Protocol::Http);
    assert_eq!(v, Ok("http://api.example.com".to_string()));
}

#[test]
fn with_nesting_the_path_is_appended() {
    let mut c = ProxyConfig::new("api.example.com".to_string());
    c.enable_nesting().web_secure();
    let u = c.get_request_uri("/a/b?x=1", Protocol::Http);
    assert_eq!(u, Ok("https://api.example.com/a/b?x=1".to_string()));
}

#[test]
fn scheme_depends_on_protocol_and_flags() {
    let mut c = ProxyConfig::new("api.example.com".to_string());
    c.ws_secure();
    assert_eq!(c.get_request_uri("/", Protocol::Http), Ok("http://api.example.com".to_string()));
    assert_eq!(c.get_request_uri("/", Protocol::WebSocket), Ok("wss://api.example.com".to_string()));
    c.ws_insecure().web_secure();
    assert_eq!(c.get_request_uri("/", Protocol::Http), Ok("https://api.example.com".to_string()));
    assert_eq!(c.get_request_uri("/", Protocol::WebSocket), Ok("ws://api.example.com".to_string()));
}

#[test]
fn scheme_in_target_is_replaced() {
    let mut c = ProxyConfig::new("http://localhost:3000".to_string());
    c.enable_nesting();
    assert_eq!(
        c.get_request_uri("/chat", Protocol::WebSocket),
        Ok("ws://localhost:3000/chat".to_string())
    );
    c.web_secure();
    assert_eq!(
        c.get_request_uri("/x?y=2", Protocol::Http),
        Ok("https://localhost:3000/x?y=2".to_string())
    );
}

#[test]
fn empty_target_is_invalid() {
    let c = ProxyConfig::new(String::new());
    assert_eq!(c.get_request_uri("/", Protocol::Http), Err(ProxyError::InvalidTarget));
}

#[test]
fn target_with_space_is_invalid() {
    let c = ProxyConfig::new("api example.com".to_string());
    assert_eq!(c.get_request_uri("/", Protocol::WebSocket), Err(ProxyError::InvalidTarget));
    assert_eq!(ProxyError::InvalidTarget.status_code(), 500);
}

#[test]
fn target_with_port_is_valid() {
    let c = ProxyConfig::new("127.0.0.1:8080".to_string());
    assert_eq!(c.get_request_uri("/a", Protocol::Http), Ok("http://127.0.0.1:8080".to_string()));
}

#[test]
fn build_uri_after_a_failed_parse() {
    let c = ProxyConfig::new("api.example.com".to_string());
    assert_eq!(build_request_uri(&c, false, "/a", Protocol::Http), Err(ProxyError::InvalidTarget));
    assert_eq!(
        build_request_uri(&c, true, "/a", Protocol::Http),
        Ok("http://api.example.com".to_string())
    );
}

#[test]
fn put_without_upgrade_is_rejected() {
    let r = dispatch(false, RequestMethod::Put);
    assert_eq!(r, Route::Reject(ProxyError::UnsupportedMethod));
    assert_eq!(ProxyError::UnsupportedMethod.status_code(), 405);
    assert_ne!(r, Route::Forward);
}

#[test]
fn get_and_post_are_forwarded() {
    assert_eq!(dispatch(false, RequestMethod::Get), Route::Forward);
    assert_eq!(dispatch(false, RequestMethod::Post), Route::Forward);
    assert_eq!(dispatch(false, RequestMethod::Delete), Route::Reject(ProxyError::UnsupportedMethod));
}

#[test]
fn upgrade_is_relayed_whatever_the_method() {
    assert_eq!(dispatch(true, RequestMethod::Get), Route::Relay);
    assert_eq!(dispatch(true, RequestMethod::Put), Route::Relay);
}

#[test]
fn upstream_response_status_is_kept() {
    assert_eq!(upstream_status(UpstreamOutcome::Responded(200)), Ok(200));
    assert_eq!(upstream_status(UpstreamOutcome::Responded(404)), Ok(404));
}

#[test]
fn unreachable_upstream_gives_bad_gateway() {
    let e = upstream_status(UpstreamOutcome::Failed(None));
    assert_eq!(e, Err(ProxyError::UpstreamUnreachable(502)));
    assert_eq!(ProxyError::UpstreamUnreachable(502).status_code(), 502);
}

#[test]
fn upstream_error_status_is_forwarded() {
    let e = upstream_status(UpstreamOutcome::Failed(Some(504)));
    assert_eq!(e, Err(ProxyError::UpstreamUnreachable(504)));
    assert_eq!(ProxyError::UpstreamUnreachable(504).status_code(), 504);
}

#[test]
fn truncated_body_is_a_transport_error() {
    assert_eq!(upstream_status(UpstreamOutcome::BodyFailed), Err(ProxyError::TransportError));
    assert_eq!(ProxyError::TransportError.status_code(), 502);
}

#[test]
fn pump_forwards_then_reads_again() {
    assert_eq!(pump_step(PumpState::Receiving, PumpEvent::Received), (PumpState::Forwarding, PumpAction::ForwardFrame));
    assert_eq!(pump_step(PumpState::Forwarding, PumpEvent::Forwarded), (PumpState::Receiving, PumpAction::ReadNext));
    assert_eq!(pump_step(PumpState::Forwarding, PumpEvent::ForwardFailed), (PumpState::Stopped, PumpAction::Shutdown));
    assert_eq!(pump_step(PumpState::Stopped, PumpEvent::Received), (PumpState::Stopped, PumpAction::Idle));
}

#[test]
fn relayed_frames_keep_their_order_and_close_together() {
    let mut s = RelaySession::new();
    let sent = vec!["A", "B", "C"];
    let mut at_upstream: Vec<&str> = Vec::new();
    let mut at_client: Vec<&str> = Vec::new();
    for f in sent.iter() {
        let (a, _) = s.on_event(Direction::ClientToUpstream, PumpEvent::Received);
        assert_eq!(a, PumpAction::ForwardFrame);
        at_upstream.push(*f);
        let (a, _) = s.on_event(Direction::ClientToUpstream, PumpEvent::Forwarded);
        assert_eq!(a, PumpAction::ReadNext);
        let (a, _) = s.on_event(Direction::UpstreamToClient, PumpEvent::Received);
        assert_eq!(a, PumpAction::ForwardFrame);
        at_client.push(at_upstream[at_upstream.len() - 1]);
        let (a, _) = s.on_event(Direction::UpstreamToClient, PumpEvent::Forwarded);
        assert_eq!(a, PumpAction::ReadNext);
    }
    assert_eq!(at_client, sent);
    assert!(!s.is_closed());
    let (own, peer) = s.on_event(Direction::ClientToUpstream, PumpEvent::SourceClosed);
    assert_eq!(own, PumpAction::Shutdown);
    assert_eq!(peer, PumpAction::Shutdown);
    assert!(s.is_closed());
    assert_eq!(s.state(Direction::UpstreamToClient), PumpState::Stopped);
    let (own, peer) = s.on_event(Direction::UpstreamToClient, PumpEvent::Received);
    assert_eq!((own, peer), (PumpAction::Idle, PumpAction::Idle));
}

#[test]
fn peer_stop_holds_back_a_pending_frame() {
    let mut s = RelaySession::new();
    let (a, _) = s.on_event(Direction::UpstreamToClient, PumpEvent::Received);
    assert_eq!(a, PumpAction::ForwardFrame);
    let (own, peer) = s.on_event(Direction::ClientToUpstream, PumpEvent::ForwardFailed);
    assert_eq!((own, peer), (PumpAction::Shutdown, PumpAction::Shutdown));
    let (a, _) = s.on_event(Direction::UpstreamToClient, PumpEvent::Forwarded);
    assert_eq!(a, PumpAction::Idle);
}

#[test]
fn refused_upstream_closes_the_client() {
    assert_eq!(handshake_action(false), HandshakeAction::CloseClient);
    assert_eq!(handshake_action(true), HandshakeAction::StartRelay);
}
