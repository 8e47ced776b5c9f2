use base64::engine::general_purpose::STANDARD;
use base64::Engine;
use chacha20poly1305::aead::{Aead, KeyInit, Payload};
use chacha20poly1305::{XChaCha20Poly1305, XNonce};

use rudeauth::session::{BeatAction, device_reset_result, file_aad, lookup_variable, webhook_result};
use rudeauth::wire::{DeviceResetPayload, GatingPayload, HeartbeatPayload, WebhookPayload};
use rudeauth::{Error, SessionState};

fn seal(key: &[u8; 32], plaintext: &[u8], aad: &[u8]) -> String {
    let cipher = XChaCha20Poly1305::new_from_slice(key).unwrap();
    let nonce = [9u8; 24];
    let ct = cipher.encrypt(XNonce::from_slice(&nonce), Payload { msg: plaintext, aad }).unwrap();
    let mut blob = nonce.to_vec();
    blob.extend_from_slice(&ct);
    STANDARD.encode(blob)
}

fn gating(sealed: String) -> Option<GatingPayload> {
    Some(GatingPayload { success: true, sealed, version: 0, error: String::new() })
}

#[test]
fn closed_session_refuses_gating() {
    let key = [0x31u8; 32];
    let mut st = SessionState::new(key, 100);
    let sealed = seal(&key, b"secret", b"variables");
    assert_eq!(st.open_gating(gating(sealed.clone()), b"variables").unwrap(), b"secret");
    st.close();
    assert!(st.is_closed());
    assert!(matches!(st.open_gating(gating(sealed.clone()), b"variables"), Err(Error::SessionExpired)));
    st.close();
    assert!(st.is_closed());
    assert_eq!(st.expires_at(), 100);
    assert!(matches!(st.open_gating(gating(sealed), b"variables"), Err(Error::SessionExpired)));
}

#[test]
fn gating_maps_failures() {
    let key = [0x31u8; 32];
    let st = SessionState::new(key, 100);
    assert!(matches!(st.open_gating(None, b"variables"), Err(Error::BadResponse)));
    let refused = GatingPayload { success: false, sealed: String::new(), version: 0, error: "FILE_NOT_FOUND".to_string() };
    assert!(matches!(st.open_gating(Some(refused), b"files:x"), Err(Error::FileNotFound)));
    assert!(matches!(st.open_gating(gating("***".to_string()), b"variables"), Err(Error::BadResponse)));
    let sealed = seal(&key, b"secret", b"variables");
    assert!(matches!(st.open_gating(gating(sealed), b"files:core.dll"), Err(Error::BadResponse)));
    let wrong_key = seal(&[0x32u8; 32], b"secret", b"variables");
    assert!(matches!(st.open_gating(gating(wrong_key), b"variables"), Err(Error::BadResponse)));
}

#[test]
fn heartbeat_schedule_and_effect() {
    let mut st = SessionState::new([1u8; 32], 1000);
    assert!(matches!(st.next_beat(900), BeatAction::Wait(50)));
    assert!(matches!(st.next_beat(995), BeatAction::Wait(2)));
    assert!(matches!(st.next_beat(996), BeatAction::Wait(2)));
    assert!(matches!(st.next_beat(994), BeatAction::Wait(3)));
    // Still retrying at the very last second of the TTL ...
    assert!(matches!(st.next_beat(1000), BeatAction::Wait(2)));
    assert!(!st.has_lapsed(1000));
    // ... and stopping once it has lapsed.
    assert!(matches!(st.next_beat(1001), BeatAction::Stop));
    assert!(matches!(st.next_beat(2000), BeatAction::Stop));
    assert!(st.has_lapsed(1001));

    // A missed beat is not a logout.
    st.apply_heartbeat(None);
    assert_eq!(st.expires_at(), 1000);
    assert!(!st.is_closed());
    st.apply_heartbeat(Some(HeartbeatPayload { valid: false, expires_at: 5000, error: "x".to_string() }));
    assert_eq!(st.expires_at(), 1000);
    st.apply_heartbeat(Some(HeartbeatPayload { valid: true, expires_at: 0, error: String::new() }));
    assert_eq!(st.expires_at(), 1000);
    st.apply_heartbeat(Some(HeartbeatPayload { valid: true, expires_at: 4600, error: String::new() }));
    assert_eq!(st.expires_at(), 4600);
    st.apply_heartbeat(Some(HeartbeatPayload { valid: true, expires_at: 3000, error: String::new() }));
    assert_eq!(st.expires_at(), 3000);
}

#[test]
fn variable_lookup() {
    let vars = vec![("offset".to_string(), "0x4A1F".to_string()), ("tier".to_string(), "gold".to_string())];
    assert_eq!(lookup_variable(Some(vars.clone()), "tier").unwrap(), "gold");
    match lookup_variable(Some(vars), "missing") {
        Err(Error::NotFound(m)) => assert_eq!(m, "no such variable: missing"),
        other => panic!("unexpected {:?}", other),
    }
    assert!(matches!(lookup_variable(None, "tier"), Err(Error::BadResponse)));
}

#[test]
fn webhook_and_device_reset() {
    let ok = WebhookPayload { success: true, body: STANDARD.encode("pong ✓"), error: String::new() };
    assert_eq!(webhook_result(Some(ok)).unwrap(), "pong ✓");
    let bad_utf8 = WebhookPayload { success: true, body: STANDARD.encode([0xffu8, 0xfe]), error: String::new() };
    assert!(matches!(webhook_result(Some(bad_utf8)), Err(Error::BadResponse)));
    let refused = WebhookPayload { success: false, body: String::new(), error: "ENDPOINT_DISABLED".to_string() };
    assert!(matches!(webhook_result(Some(refused)), Err(Error::EndpointDisabled)));
    let bad_b64 = WebhookPayload { success: true, body: "@@".to_string(), error: String::new() };
    assert!(matches!(webhook_result(Some(bad_b64)), Err(Error::BadResponse)));
    assert!(matches!(webhook_result(None), Err(Error::BadResponse)));

    assert!(device_reset_result(Some(DeviceResetPayload { success: true, error: String::new() })).is_ok());
    let r = device_reset_result(Some(DeviceResetPayload { success: false, error: "RESET_UNAVAILABLE".to_string() }));
    assert!(matches!(r, Err(Error::ResetUnavailable)));
    assert!(matches!(device_reset_result(None), Err(Error::BadResponse)));
}

#[test]
fn error_codes_and_messages() {
    let cases = [
        ("LICENSE_INVALID", Error::LicenseInvalid),
        ("LICENSE_EXPIRED", Error::LicenseExpired),
        ("DEVICE_LIMIT", Error::DeviceLimit),
        ("DEVICE_BLACKLISTED", Error::DeviceBlacklisted),
        ("RATE_LIMITED", Error::RateLimited),
        ("SESSION_EXPIRED", Error::SessionExpired),
        ("ENDPOINT_DISABLED", Error::EndpointDisabled),
        ("APP_DISABLED", Error::AppDisabled),
        ("CLOCK_SKEW", Error::ClockSkew),
        ("RESET_UNAVAILABLE", Error::ResetUnavailable),
        ("FILE_NOT_FOUND", Error::FileNotFound),
        ("SOMETHING_NEW", Error::ServerError),
        ("", Error::ServerError),
        ("license_invalid", Error::ServerError),
    ];
    for (code, expected) in cases {
        assert_eq!(Error::from_wire(code), expected);
    }
    assert_eq!(Error::Network.message(), "rudeauth: network unreachable");
    assert_eq!(Error::SignatureInvalid.message(), "rudeauth: signature invalid, the server is not authentic");
    assert_eq!(Error::AppDisabled.message(), "rudeauth: application unavailable");
    assert_eq!(Error::Config("bad key".to_string()).message(), "rudeauth: bad key");
    assert_eq!(Error::NotFound("no such variable: x".to_string()).message(), "rudeauth: no such variable: x");
}

#[test]
fn file_aads_differ_per_name() {
    assert_eq!(file_aad("core.dll"), b"files:core.dll".to_vec());
    assert_eq!(file_aad("é"), "files:é".as_bytes().to_vec());
    assert_ne!(file_aad("core.dll"), file_aad("core.dl"));
    assert_ne!(file_aad("a"), file_aad("b"));
}
