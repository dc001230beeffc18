use vox_gui::auth::{handle_auth_at, AccessCode, SessionToken};
use vox_gui::session::{host_step, viewer_step, Action, MessageKind, SessionState};

const HASH_314159: &str = "c5b389beb081fe1e43ae92e895deca086b4eed5cf9efc7b78eebbbc9dc75c3f0";

#[test]
fn hash_code_is_lower_hex_sha256() {
    assert_eq!(AccessCode::hash_code("314159"), HASH_314159);
    assert_eq!(
        AccessCode::hash_code("000000"),
        "91b4d142823f7d20c5f08df69122de43f35f057a988d9619f6d3138485c9a203"
    );
}

#[test]
fn access_code_expires_after_five_minutes() {
    let ac = AccessCode::from_code_at("314159".to_string(), 1_000);
    assert_eq!(ac.hashed, HASH_314159);
    assert_eq!(ac.created_at, 1_000);
    assert_eq!(ac.expires_at, 1_300);
    assert!(ac.verify_at("314159", 1_300));
    assert!(!ac.verify_at("314159", 1_301));
    assert!(ac.is_expired_at(1_301));
    assert!(!ac.is_expired_at(1_300));
}

#[test]
fn access_code_expiry_saturates() {
    let ac = AccessCode::from_code_at("123456".to_string(), u64::MAX - 10);
    assert_eq!(ac.expires_at, u64::MAX);
}

#[test]
fn generated_access_code_has_six_digits() {
    let ac = AccessCode::generate();
    assert_eq!(ac.code.len(), 6);
    assert!(ac.code.chars().all(|c| c.is_ascii_digit()));
    assert_eq!(ac.hashed, AccessCode::hash_code(&ac.code));
    assert_eq!(ac.expires_at, ac.created_at + 300);
    assert!(ac.verify(&ac.code));
    assert!(!ac.is_expired());
}

#[test]
fn happy_path_authenticates() {
    let slot = Some(AccessCode::from_code_at("314159".to_string(), 5_000));
    let resp = handle_auth_at("314159", &slot, 5_010);
    assert!(resp.success);
    assert!(resp.session_token.is_none());
    let t = host_step(SessionState::Init, MessageKind::KeyExchange, false);
    assert_eq!(t.next, SessionState::KeyAgreed);
    assert_eq!(t.action, Action::SendKeyExchangeAck);
    let t = host_step(t.next, MessageKind::AuthRequest, resp.success);
    assert_eq!(t.next, SessionState::Authenticated);
    assert_eq!(t.action, Action::AcceptAuth);
    let t = host_step(t.next, MessageKind::StartStream, false);
    assert_eq!(t.next, SessionState::Streaming);
    assert_eq!(t.action, Action::BeginStream);
    let token = SessionToken::generate(24);
    assert_eq!(token.token.len(), 32);
    assert!(token.token.chars().all(|c| c.is_ascii_alphanumeric()));
    assert_eq!(token.expires_at, token.created_at + 24 * 3600);
    assert!(token.is_valid());
}

#[test]
fn bad_code_is_rejected_and_closes() {
    let slot = Some(AccessCode::from_code_at("314159".to_string(), 5_000));
    let resp = handle_auth_at("000000", &slot, 5_010);
    assert!(!resp.success);
    assert!(resp.session_token.is_none());
    let t = host_step(SessionState::KeyAgreed, MessageKind::AuthRequest, resp.success);
    assert_eq!(t.next, SessionState::Closed);
    assert_eq!(t.action, Action::RejectAuth);
    let v = viewer_step(SessionState::KeyAgreed, MessageKind::AuthResponse, resp.success);
    assert_eq!(v.next, SessionState::Closed);
    assert_eq!(v.action, Action::AuthenticationFailed);
}

#[test]
fn expired_code_is_rejected() {
    let slot = Some(AccessCode::from_code_at("314159".to_string(), 5_000));
    let resp = handle_auth_at("314159", &slot, 5_301);
    assert!(!resp.success);
    let t = host_step(SessionState::KeyAgreed, MessageKind::AuthRequest, resp.success);
    assert_eq!(t.next, SessionState::Closed);
    let empty: Option<AccessCode> = None;
    assert!(!handle_auth_at("314159", &empty, 0).success);
}

#[test]
fn session_token_validity_window() {
    let t = SessionToken::from_token_at("abc".to_string(), 100, 2);
    assert_eq!(t.expires_at, 100 + 7200);
    assert!(t.is_valid_at(7300));
    assert!(!t.is_valid_at(7301));
    let forever = SessionToken::from_token_at("x".to_string(), 5, u64::MAX);
    assert_eq!(forever.expires_at, u64::MAX);
}

#[test]
fn messages_outside_the_table_are_violations() {
    let cases = [
        (SessionState::Init, MessageKind::AuthRequest),
        (SessionState::Init, MessageKind::StartStream),
        (SessionState::KeyAgreed, MessageKind::KeyExchange),
        (SessionState::KeyAgreed, MessageKind::MouseMove),
        (SessionState::Authenticated, MessageKind::FrameAck),
        (SessionState::Streaming, MessageKind::AuthRequest),
        (SessionState::Streaming, MessageKind::StartStream),
        (SessionState::Closed, MessageKind::Ping),
    ];
    for (s, k) in cases {
        let t = host_step(s, k, true);
        assert_eq!(t.next, SessionState::Closed);
        assert_eq!(t.action, Action::ProtocolViolation);
    }
    let v = viewer_step(SessionState::Init, MessageKind::ScreenFrame, true);
    assert_eq!(v.action, Action::ProtocolViolation);
}

#[test]
fn streaming_host_dispatches_messages() {
    let s = SessionState::Streaming;
    assert_eq!(host_step(s, MessageKind::KeyEvent, false).action, Action::ForwardInput);
    assert_eq!(host_step(s, MessageKind::FrameAck, false).action, Action::RecordFrameAck);
    assert_eq!(host_step(s, MessageKind::RequestQualityChange, false).action, Action::ApplyQualityRequest);
    assert_eq!(host_step(s, MessageKind::Ping, false).action, Action::SendPong);
    let d = host_step(s, MessageKind::Disconnect, false);
    assert_eq!(d.next, SessionState::Closed);
    assert_eq!(d.action, Action::CloseSession);
    let v = viewer_step(SessionState::Init, MessageKind::KeyExchangeAck, false);
    assert_eq!(v.action, Action::SendAuthRequest);
    let v = viewer_step(SessionState::KeyAgreed, MessageKind::AuthResponse, true);
    assert_eq!(v.next, SessionState::Streaming);
    assert_eq!(v.action, Action::SendStartStream);
    assert_eq!(viewer_step(v.next, MessageKind::DeltaFrame, false).action, Action::ApplyFrame);
}
