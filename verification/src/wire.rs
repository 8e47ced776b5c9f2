//! Response and request types, mirroring the server's wire format field for
//! field. The application layer decodes JSON into these plain values (after the
//! signature over the raw bytes has been verified) and encodes requests from
//! them; the decisions on their contents are made in this crate.

use vstd::prelude::*;

verus! {

/// The signed envelope of every response: base64 payload and base64 Ed25519
/// signature.
pub struct Envelope {
    pub data: String,
    pub signature: String,
}

/// What the server reports about the licence at handshake.
#[derive(Clone, Copy, Debug, PartialEq, Eq)]
pub struct LicenseInfo {
    pub level: i32,
    /// Unix seconds; 0 means perpetual.
    pub expires_at: i64,
    pub devices_used: i32,
    pub max_devices: i32,
}

/// The licence information a handshake reports when the server sends none.
pub open spec fn default_license() -> LicenseInfo {
    LicenseInfo { level: 0, expires_at: 0, devices_used: 0, max_devices: 0 }
}

impl Default for LicenseInfo {
    fn default() -> (info: LicenseInfo)
        ensures
            info == default_license(),
    {
        LicenseInfo { level: 0, expires_at: 0, devices_used: 0, max_devices: 0 }
    }
}

/// The handshake response payload.
pub struct HandshakePayload {
    pub success: bool,
    pub client_nonce: String,
    pub server_time: i64,
    pub session_token: String,
    pub session_expires_at: i64,
    pub session_id: String,
    pub server_eph_pubkey: String,
    pub license: Option<LicenseInfo>,
    pub error: String,
}

/// The payload of the sealed gating endpoints (variables, files).
pub struct GatingPayload {
    pub success: bool,
    pub sealed: String,
    pub version: i32,
    pub error: String,
}

/// The heartbeat response payload.
pub struct HeartbeatPayload {
    pub valid: bool,
    pub expires_at: i64,
    pub error: String,
}

/// The webhook response payload.
pub struct WebhookPayload {
    pub success: bool,
    pub body: String,
    pub error: String,
}

/// The device-reset response payload.
pub struct DeviceResetPayload {
    pub success: bool,
    pub error: String,
}

/// The body of a handshake request.
pub struct HandshakeRequest {
    pub app_id: String,
    pub app_version: String,
    pub license_key: String,
    pub fingerprint_components: Vec<String>,
    pub fingerprint_label: String,
    pub client_nonce: String,
    pub eph_pubkey: String,
    pub sent_at: i64,
}

} // verus!
