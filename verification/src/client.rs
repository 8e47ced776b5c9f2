//! The client's pinned identity and the decisions of the protocol around each
//! request: how a response is verified before anything in it is read, and how a
//! handshake is prepared and judged. The transport itself (HTTP) belongs to the
//! application layer, which hands these functions the bytes it received.

use std::time::{Duration, SystemTime, SystemTimeError, UNIX_EPOCH};

use base64::engine::general_purpose::STANDARD;
use base64::Engine;
use vstd::prelude::*;
use vstd::string::*;

use crate::crypto::{
    basepoint, derive_session_key, ephemeral, random_nonce, session_key_of, signature_valid,
    verify, x25519_of,
};
use crate::errors::{wire_error, Error};
use crate::session::SessionSetup;
use crate::text::{decimal, decimal_text, strip_end, trim_end_matching, CharSet};
use crate::wire::{default_license, Envelope, HandshakePayload, HandshakeRequest, LicenseInfo};

verus! {

/// The fewest hardware components a handshake may carry.
pub const MIN_COMPONENTS: usize = 2;

/// The largest difference, in seconds, tolerated between this machine's clock
/// and the server's.
pub const MAX_CLOCK_SKEW: i64 = 300;

/// The most response bytes read from the server (encrypted files can be large).
pub const MAX_RESPONSE_BYTES: u64 = 67108864;

/// The standard-alphabet, padded base64 encoding of `bytes`.
pub uninterp spec fn base64_encode_of(bytes: Seq<u8>) -> Seq<char>;

/// The bytes that the standard-alphabet, padded base64 text `text` decodes to,
/// or `None` when it is not valid such base64.
pub uninterp spec fn base64_decode_of(text: Seq<char>) -> Option<Seq<u8>>;

/// The bytes a byte-vector result carries.
pub open spec fn bytes_result(r: Result<Vec<u8>, Error>) -> Result<Seq<u8>, Error> {
    match r {
        Ok(v) => Ok(v@),
        Err(e) => Err(e),
    }
}

/// What `b64_decode` returns for `text`.
pub open spec fn decoded(text: Seq<char>) -> Result<Seq<u8>, Error> {
    match base64_decode_of(text) {
        Some(b) => Ok(b),
        None => Err(Error::BadResponse),
    }
}

/// What a response carried in `envelope` yields for `endpoint`, under the
/// pinned `public_key`: the payload, only once its signature has verified.
pub open spec fn response_outcome(
    public_key: Seq<u8>,
    endpoint: Seq<u8>,
    envelope: Option<(Seq<char>, Seq<char>)>,
) -> Result<Seq<u8>, Error> {
    match envelope {
        None => Err(Error::BadResponse),
        Some((data_b64, sig_b64)) => match (base64_decode_of(data_b64), base64_decode_of(sig_b64)) {
            (None, _) => Err(Error::BadResponse),
            (Some(_), None) => Err(Error::BadResponse),
            (Some(data), Some(sig)) => if data.len() == 0 || sig.len() == 0 {
                Err(Error::BadResponse)
            } else if !signature_valid(public_key, endpoint, data, sig) {
                Err(Error::SignatureInvalid)
            } else {
                Ok(data)
            },
        },
    }
}

/// The view of an optional envelope: its two base64 fields.
pub open spec fn envelope_view(e: Option<Envelope>) -> Option<(Seq<char>, Seq<char>)> {
    match e {
        Some(env) => Some((env.data@, env.signature@)),
        None => None,
    }
}

/// The message of the refusal to send a weak fingerprint.
pub open spec fn weak_fingerprint_message(count: nat) -> Seq<char> {
    "could not read enough hardware components ("@ + decimal(count) + ", need "@ + decimal(
        MIN_COMPONENTS as nat,
    ) + ")"@
}

/// Whether a clock difference of `delta` seconds is too large.
pub open spec fn skewed(delta: int) -> bool {
    delta > MAX_CLOCK_SKEW || delta < -MAX_CLOCK_SKEW
}

/// The licence information a handshake payload reports.
pub open spec fn reported_license(l: Option<LicenseInfo>) -> LicenseInfo {
    match l {
        Some(info) => info,
        None => default_license(),
    }
}

/// The pinned identity of one application on one RudeAuth server.
pub struct Client {
    app_id: String,
    public_key: [u8; 32],
    base_url: String,
    app_version: String,
}

/// The abstract content of a [`Client`].
pub struct ClientView {
    pub app_id: Seq<char>,
    pub public_key: Seq<u8>,
    pub base_url: Seq<char>,
    pub app_version: Seq<char>,
}

impl View for Client {
    type V = ClientView;

    closed spec fn view(&self) -> ClientView {
        ClientView {
            app_id: self.app_id@,
            public_key: self.public_key@,
            base_url: self.base_url@,
            app_version: self.app_version@,
        }
    }
}

/// The state a handshake carries from its request to its response: the
/// ephemeral secret and the nonce the server must echo.
pub struct PendingHandshake {
    eph_private: [u8; 32],
    client_nonce: String,
}

impl PendingHandshake {
    /// The ephemeral X25519 secret.
    pub closed spec fn secret(&self) -> Seq<u8> {
        self.eph_private@
    }

    /// The base64 nonce sent with the request.
    pub closed spec fn nonce(&self) -> Seq<char> {
        self.client_nonce@
    }
}

/// The first step of a handshake: the request to send and the state to keep,
/// or the report that the system RNG could not be read.
pub enum HandshakeStart {
    Ready(HandshakeRequest, PendingHandshake),
    RngUnavailable,
}

/// What a handshake response yields for the pending state (`nonce`, `secret`)
/// at local time `now`, apart from the session's token and licence data.
pub open spec fn handshake_key(nonce: Seq<char>, secret: Seq<u8>, p: HandshakePayload, now: int) -> Result<Seq<u8>, Error> {
    if p.client_nonce@ != nonce {
        Err(Error::NonceMismatch)
    } else if p.server_time > 0 && skewed(now - p.server_time) {
        Err(Error::ClockSkew)
    } else if !p.success {
        Err(wire_error(p.error@))
    } else {
        match base64_decode_of(p.server_eph_pubkey@) {
            None => Err(Error::BadResponse),
            Some(eph) => match session_key_of(secret, eph, vstd::utf8::encode_utf8(p.session_id@)) {
                None => Err(Error::BadResponse),
                Some(k) => Ok(k),
            },
        }
    }
}

/// The session reports exactly the licence the handshake carried, field for
/// field; only a missing licence reports all zeros.
pub proof fn reported_license_is_the_servers(l: LicenseInfo)
    ensures
        reported_license(Some(l)).level == l.level,
        reported_license(Some(l)).expires_at == l.expires_at,
        reported_license(Some(l)).devices_used == l.devices_used,
        reported_license(Some(l)).max_devices == l.max_devices,
        reported_license(None) == (LicenseInfo { level: 0, expires_at: 0, devices_used: 0, max_devices: 0 }),
{
}

/// The replay check is exact: a handshake answer is refused as a replay if and
/// only if it does not echo the nonce of the pending request (no server error
/// code maps to `NonceMismatch`).
pub proof fn replay_check_is_exact(nonce: Seq<char>, secret: Seq<u8>, p: HandshakePayload, now: int)
    ensures
        (handshake_key(nonce, secret, p, now) == Err::<Seq<u8>, Error>(Error::NonceMismatch)) <==> (
        p.client_nonce@ != nonce),
{
}

/// The base64 encoding (standard alphabet, padded) of `bytes`.
pub fn b64_encode(bytes: &[u8]) -> (text: String)
    ensures
        text@ == base64_encode_of(bytes@),
        decoded(text@) == Ok::<Seq<u8>, Error>(bytes@),
{
    base64_encode(bytes)
}

/// Decode standard base64; anything undecodable is a malformed response.
pub fn b64_decode(s: &str) -> (r: Result<Vec<u8>, Error>)
    ensures
        bytes_result(r) == decoded(s@),
{
    match base64_decode(s) {
        Ok(v) => Ok(v),
        Err(_) => Err(Error::BadResponse),
    }
}

/// The Unix time that a reading of the clock gives: the whole seconds since the
/// epoch (truncated to `i64`), or 0 for a clock set before the epoch.
pub fn unix_seconds(secs: Option<u64>) -> (t: i64)
    ensures
        t == match secs {
            Some(s) => s as i64,
            None => 0i64,
        },
{
    match secs {
        Some(s) => s as i64,
        None => 0,
    }
}

/// The current Unix time in seconds (0 when the clock reads before the epoch).
pub fn now_unix() -> (t: i64) {
    let now = system_time_now();
    match since_unix_epoch(&now) {
        Ok(d) => unix_seconds(Some(duration_secs(&d))),
        Err(_) => unix_seconds(None),
    }
}

/// The error a failed exchange maps to: a non-success HTTP status carries no
/// signed envelope, so nothing about it can be trusted (`BadResponse`); any
/// other transport failure is `Network`.
pub fn transport_failure(status_received: bool) -> (e: Error)
    ensures
        e == (if status_received { Error::BadResponse } else { Error::Network }),
{
    if status_received {
        Error::BadResponse
    } else {
        Error::Network
    }
}

/// The refusal of a handshake with fewer than `MIN_COMPONENTS` components.
pub fn check_components(components: &Vec<String>) -> (r: Result<(), Error>)
    ensures
        components@.len() >= MIN_COMPONENTS ==> r is Ok,
        components@.len() < MIN_COMPONENTS ==> (r matches Err(Error::Config(m)) && m@
            == weak_fingerprint_message(components@.len())),
{
    if components.len() < MIN_COMPONENTS {
        let mut m = "could not read enough hardware components (".to_owned();
        m.append(decimal_text(components.len()).as_str());
        m.append(", need ");
        m.append(decimal_text(MIN_COMPONENTS).as_str());
        m.append(")");
        return Err(Error::Config(m));
    }
    Ok(())
}

impl Client {
    /// Build a client. `app_id` and `public_key_b64` come from
    /// `rudeauth-cli app create`; both are safe to embed, because the public key
    /// verifies responses and cannot forge them. Trailing '/' characters of
    /// `base_url` are dropped.
    pub fn new(app_id: &str, public_key_b64: &str, base_url: &str) -> (r: Result<Client, Error>)
        ensures
            match base64_decode_of(public_key_b64@) {
                None => r matches Err(Error::Config(m)) && m@ == "public key is not valid base64"@,
                Some(k) => if k.len() != 32 {
                    r matches Err(Error::Config(m)) && m@ == "public key must be a 32-byte Ed25519 key"@
                } else {
                    r matches Ok(c) && c@ == (ClientView {
                        app_id: app_id@,
                        public_key: k,
                        base_url: strip_end(base_url@, CharSet::Slash),
                        app_version: "1.0.0"@,
                    })
                },
            },
    {
        let bytes = match b64_decode(public_key_b64) {
            Ok(b) => b,
            Err(_) => return Err(Error::Config("public key is not valid base64".to_owned())),
        };
        if bytes.len() != 32 {
            return Err(Error::Config("public key must be a 32-byte Ed25519 key".to_owned()));
        }
        let public_key: [u8; 32] = crate::crypto::to_array(bytes.as_slice());
        Ok(Client {
            app_id: app_id.to_owned(),
            public_key,
            base_url: trim_end_matching(base_url, CharSet::Slash),
            app_version: "1.0.0".to_owned(),
        })
    }

    /// Override the `app_version` reported to the server.
    pub fn with_app_version(self, version: &str) -> (c: Client)
        ensures
            c@ == (ClientView { app_version: version@, ..self@ }),
    {
        let mut c = self;
        c.set_app_version(version);
        c
    }

    /// Override, in place, the `app_version` reported to the server.
    pub fn set_app_version(&mut self, version: &str)
        ensures
            final(self)@ == (ClientView { app_version: version@, ..old(self)@ }),
    {
        self.app_version = version.to_owned();
    }

    /// The application id.
    pub fn app_id(&self) -> (s: &str)
        ensures
            s@ == self@.app_id,
    {
        self.app_id.as_str()
    }

    /// The application version reported at handshake.
    pub fn app_version(&self) -> (s: &str)
        ensures
            s@ == self@.app_version,
    {
        self.app_version.as_str()
    }

    /// The URL of `path` on this client's server.
    pub fn url(&self, path: &str) -> (u: String)
        ensures
            u@ == self@.base_url + path@,
    {
        let mut u = self.base_url.clone();
        u.append(path);
        u
    }

    /// Judge a response to a request on `endpoint` and return the VERIFIED
    /// payload bytes: `envelope` is the decoded JSON envelope, `None` when the
    /// body was not one. There is no path through this function that yields
    /// unverified data.
    pub fn verify_response(&self, endpoint: &str, envelope: Option<Envelope>) -> (r: Result<Vec<u8>, Error>)
        ensures
            bytes_result(r) == response_outcome(self@.public_key, endpoint.spec_bytes(), envelope_view(envelope)),
            r matches Ok(data) ==> envelope matches Some(env) && base64_decode_of(env.signature@) matches Some(sig)
                && signature_valid(self@.public_key, endpoint.spec_bytes(), data@, sig),
    {
        let env = match envelope {
            Some(env) => env,
            None => return Err(Error::BadResponse),
        };
        let data = match b64_decode(env.data.as_str()) {
            Ok(d) => d,
            Err(e) => return Err(e),
        };
        let sig = match b64_decode(env.signature.as_str()) {
            Ok(s) => s,
            Err(e) => return Err(e),
        };
        if data.len() == 0 || sig.len() == 0 {
            return Err(Error::BadResponse);
        }
        // Before anything is parsed: the bytes must be signed by the key pinned
        // into this client.
        if !verify(self.public_key.as_slice(), endpoint, data.as_slice(), sig.as_slice()) {
            return Err(Error::SignatureInvalid);
        }
        Ok(data)
    }

    /// The first step of a handshake: refuse a weak fingerprint, then draw the
    /// ephemeral keypair and the anti-replay nonce and build the request.
    pub fn begin_handshake(&self, license_key: &str, components: Vec<String>, label: String, now: i64) -> (r: Result<HandshakeStart, Error>)
        ensures
            components@.len() < MIN_COMPONENTS ==> (r matches Err(Error::Config(m)) && m@
                == weak_fingerprint_message(components@.len())),
            components@.len() >= MIN_COMPONENTS ==> r is Ok,
            r matches Ok(HandshakeStart::Ready(req, pending)) ==> {
                &&& req.app_id@ == self@.app_id
                &&& req.app_version@ == self@.app_version
                &&& req.license_key@ == license_key@
                &&& req.fingerprint_components@ == components@
                &&& req.fingerprint_label@ == label@
                &&& req.sent_at == now
                &&& req.client_nonce@ == pending.nonce()
                &&& exists|n: Seq<u8>| n.len() == 32 && req.client_nonce@ == base64_encode_of(n)
                &&& req.eph_pubkey@ == base64_encode_of(x25519_of(pending.secret(), basepoint()))
                &&& pending.secret().len() == 32
            },
    {
        match check_components(&components) {
            Ok(()) => {},
            Err(e) => return Err(e),
        }
        let (eph_pub, eph_priv) = match ephemeral() {
            Some(pair) => pair,
            None => return Ok(HandshakeStart::RngUnavailable),
        };
        let nonce = match random_nonce() {
            Some(n) => n,
            None => return Ok(HandshakeStart::RngUnavailable),
        };
        let (req, pending) = self.handshake_request(license_key, components, label, &eph_pub, eph_priv, &nonce, now);
        assert(nonce@.len() == 32);
        Ok(HandshakeStart::Ready(req, pending))
    }

    /// The handshake request and the state to keep, for a drawn ephemeral
    /// keypair and nonce: the nonce and the public key go out in base64, the
    /// secret and the nonce's text stay behind.
    pub fn handshake_request(
        &self,
        license_key: &str,
        components: Vec<String>,
        label: String,
        eph_public: &[u8; 32],
        eph_private: [u8; 32],
        nonce: &[u8; 32],
        now: i64,
    ) -> (r: (HandshakeRequest, PendingHandshake))
        ensures
            r.0.app_id@ == self@.app_id,
            r.0.app_version@ == self@.app_version,
            r.0.license_key@ == license_key@,
            r.0.fingerprint_components@ == components@,
            r.0.fingerprint_label@ == label@,
            r.0.sent_at == now,
            r.0.client_nonce@ == base64_encode_of(nonce@),
            r.0.eph_pubkey@ == base64_encode_of(eph_public@),
            r.1.nonce() == r.0.client_nonce@,
            r.1.secret() == eph_private@,
    {
        let nonce_b64 = b64_encode(nonce.as_slice());
        let req = HandshakeRequest {
            app_id: self.app_id.clone(),
            app_version: self.app_version.clone(),
            license_key: license_key.to_owned(),
            fingerprint_components: components,
            fingerprint_label: label,
            client_nonce: nonce_b64.clone(),
            eph_pubkey: b64_encode(eph_public.as_slice()),
            sent_at: now,
        };
        let pending = PendingHandshake { eph_private, client_nonce: nonce_b64 };
        (req, pending)
    }

    /// The second step of a handshake: judge the verified response payload
    /// (`None` when it did not decode) at local time `now`. The echoed nonce
    /// proves the response was produced for this request; the server's clock
    /// must be within `MAX_CLOCK_SKEW`; a refusal maps to its error; otherwise
    /// the session key is derived from the server's ephemeral key.
    pub fn finish_handshake(pending: PendingHandshake, payload: Option<HandshakePayload>, now: i64) -> (r: Result<SessionSetup, Error>)
        requires
            payload matches Some(p) ==> (p.client_nonce@ == pending.nonce() && p.server_time > 0
                ==> now - p.server_time >= i64::MIN),
        ensures
            payload is None ==> r matches Err(Error::BadResponse),
            payload matches Some(p) ==> match handshake_key(pending.nonce(), pending.secret(), p, now as int) {
                Err(e) => r matches Err(f) && f == e,
                Ok(k) => r matches Ok(s) && s.key@ == k && s.token@ == p.session_token@
                    && s.info == reported_license(p.license) && s.expires_at == p.session_expires_at,
            },
            r matches Ok(s) ==> (payload matches Some(p) && match p.license {
                Some(l) => s.info == l,
                None => s.info == (LicenseInfo { level: 0, expires_at: 0, devices_used: 0, max_devices: 0 }),
            }),
    {
        let p = match payload {
            Some(p) => p,
            None => return Err(Error::BadResponse),
        };
        if !crate::errors::str_eq(p.client_nonce.as_str(), pending.client_nonce.as_str()) {
            return Err(Error::NonceMismatch);
        }
        if p.server_time > 0 {
            let delta = now - p.server_time;
            if delta > MAX_CLOCK_SKEW || delta < -MAX_CLOCK_SKEW {
                return Err(Error::ClockSkew);
            }
        }
        if !p.success {
            return Err(Error::from_wire(p.error.as_str()));
        }
        let server_eph = match b64_decode(p.server_eph_pubkey.as_str()) {
            Ok(b) => b,
            Err(e) => return Err(e),
        };
        let key = match derive_session_key(pending.eph_private.as_slice(), server_eph.as_slice(), p.session_id.as_str()) {
            Some(k) => k,
            None => return Err(Error::BadResponse),
        };
        let info = match p.license {
            Some(l) => l,
            None => LicenseInfo::default(),
        };
        Ok(SessionSetup { token: p.session_token, key, info, expires_at: p.session_expires_at })
    }
}

// ---------------------------------------------------------------------------
// Trusted items.
// ---------------------------------------------------------------------------

/// The error of `base64::Engine::decode`.
#[verifier::external_type_specification]
#[verifier::external_body]
pub struct ExDecodeError(base64::DecodeError);

/// The clock reading of `std::time::SystemTime::now`.
#[verifier::external_type_specification]
#[verifier::external_body]
pub struct ExSystemTime(SystemTime);

/// The error of `std::time::SystemTime::duration_since`.
#[verifier::external_type_specification]
#[verifier::external_body]
pub struct ExSystemTimeError(SystemTimeError);

/// `base64::engine::general_purpose::STANDARD.encode`: claimed to return the
/// text that `base64_encode_of` names, which `STANDARD.decode` decodes back to
/// `bytes` (the engine's canonical padded encoding round-trips).
#[verifier::external_body]
fn base64_encode(bytes: &[u8]) -> (text: String)
    ensures
        text@ == base64_encode_of(bytes@),
        base64_decode_of(text@) == Some(bytes@),
{
    STANDARD.encode(bytes)
}

/// `base64::engine::general_purpose::STANDARD.decode`: claimed to succeed
/// exactly when `base64_decode_of` names bytes, and then with those bytes.
#[verifier::external_body]
fn base64_decode(text: &str) -> (r: Result<Vec<u8>, base64::DecodeError>)
    ensures
        match r {
            Ok(v) => base64_decode_of(text@) == Some(v@),
            Err(_) => base64_decode_of(text@) is None,
        },
{
    STANDARD.decode(text)
}

/// `std::time::SystemTime::now`. Nothing is claimed: it reads the clock.
#[verifier::external_body]
fn system_time_now() -> (t: SystemTime) {
    SystemTime::now()
}

/// `std::time::SystemTime::duration_since(UNIX_EPOCH)`. Nothing is claimed of
/// the opaque clock reading.
#[verifier::external_body]
fn since_unix_epoch(t: &SystemTime) -> (d: Result<Duration, SystemTimeError>) {
    t.duration_since(UNIX_EPOCH)
}

/// `std::time::Duration::as_secs`. Nothing is claimed of the opaque duration.
#[verifier::external_body]
fn duration_secs(d: &Duration) -> (s: u64) {
    d.as_secs()
}

} // verus!
