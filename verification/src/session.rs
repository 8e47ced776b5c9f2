//! The state of an authenticated session and the decisions around it: opening
//! sealed gating payloads, closing, and the heartbeat's schedule and effect.
//! The heartbeat thread and the requests themselves belong to the application
//! layer.

use vstd::prelude::*;
use vstd::string::*;

use crate::client::{b64_decode, base64_decode_of};
use crate::crypto::{open_sealed, opt_bytes, sealed_plaintext, zero32};
use crate::errors::{wire_error, Error};
use crate::wire::{DeviceResetPayload, GatingPayload, HeartbeatPayload, LicenseInfo, WebhookPayload};

verus! {

/// What a successful handshake yields: the session token, the derived session
/// key, the licence information and the session's expiry (Unix seconds).
pub struct SessionSetup {
    pub token: String,
    pub key: [u8; 32],
    pub info: LicenseInfo,
    pub expires_at: i64,
}

/// The mutable state of a live session, shared with its heartbeat.
pub struct SessionState {
    key: [u8; 32],
    expires_at: i64,
    closed: bool,
}

/// The abstract content of a [`SessionState`].
pub struct SessionView {
    pub key: Seq<u8>,
    pub expires_at: i64,
    pub closed: bool,
}

impl View for SessionState {
    type V = SessionView;

    closed spec fn view(&self) -> SessionView {
        SessionView { key: self.key@, expires_at: self.expires_at, closed: self.closed }
    }
}

/// The state after closing `s`: closed, with the key zeroed.
pub open spec fn closed_view(s: SessionView) -> SessionView {
    SessionView { key: zero32(), expires_at: s.expires_at, closed: true }
}

/// The state after a heartbeat with outcome `beat` (`None` when the request or
/// its decoding failed): a valid beat with a positive expiry extends the
/// session to it; anything else leaves the session as it was.
pub open spec fn after_heartbeat(s: SessionView, beat: Option<HeartbeatPayload>) -> SessionView {
    match beat {
        Some(hp) => if hp.valid && hp.expires_at > 0 {
            SessionView { expires_at: hp.expires_at, ..s }
        } else {
            s
        },
        None => s,
    }
}

/// The seconds to wait before the next heartbeat when `remaining` seconds of
/// the session are left: half of them, or 2 when 4 or fewer are left.
pub open spec fn beat_wait(remaining: int) -> int {
    if remaining > 4 {
        remaining / 2
    } else {
        2
    }
}

/// What the heartbeat does next.
pub enum BeatAction {
    /// Wait this many seconds, then beat.
    Wait(u64),
    /// The session's TTL has lapsed: beat no more.
    Stop,
}

/// Whether the session's TTL has genuinely lapsed at local time `now`.
pub open spec fn lapsed(s: SessionView, now: int) -> bool {
    now > s.expires_at
}

/// The heartbeat's next step at local time `now`: retry (a missed beat is not a
/// logout) until the TTL genuinely lapses, then stop.
pub open spec fn beat_plan(s: SessionView, now: int) -> Option<int> {
    if lapsed(s, now) {
        None
    } else {
        Some(beat_wait(s.expires_at - now))
    }
}

/// What a sealed gating call yields for the session `s`, the verified payload
/// `p` (`None` when it did not decode) and the endpoint's AAD.
pub open spec fn gating_outcome(s: SessionView, p: Option<GatingPayload>, aad: Seq<u8>) -> Result<Seq<u8>, Error> {
    match p {
        None => Err(Error::BadResponse),
        Some(g) => if !g.success {
            Err(wire_error(g.error@))
        } else {
            match base64_decode_of(g.sealed@) {
                None => Err(Error::BadResponse),
                Some(blob) => if s.closed {
                    Err(Error::SessionExpired)
                } else {
                    match sealed_plaintext(s.key, blob, aad) {
                        None => Err(Error::BadResponse),
                        Some(plain) => Ok(plain),
                    }
                },
            }
        },
    }
}

/// The index of the first pair in `vars` at or after `i` whose name is `name`,
/// or `vars.len()`.
pub open spec fn variable_index(vars: Seq<(String, String)>, name: Seq<char>, i: int) -> int
    decreases vars.len() - i,
{
    if i >= vars.len() || i < 0 {
        vars.len() as int
    } else if vars[i].0@ == name {
        i
    } else {
        variable_index(vars, name, i + 1)
    }
}

/// The bytes of the AAD that seals the file `name`: "files:" + name.
pub open spec fn file_aad_of(name: Seq<char>) -> Seq<u8> {
    "files:".spec_bytes() + vstd::utf8::encode_utf8(name)
}

/// What a webhook call yields for the verified payload `p`.
pub open spec fn webhook_outcome(p: Option<WebhookPayload>) -> Result<Seq<char>, Error> {
    match p {
        None => Err(Error::BadResponse),
        Some(w) => if !w.success {
            Err(wire_error(w.error@))
        } else {
            match base64_decode_of(w.body@) {
                None => Err(Error::BadResponse),
                Some(b) => if vstd::utf8::valid_utf8(b) {
                    Ok(vstd::utf8::decode_utf8(b))
                } else {
                    Err(Error::BadResponse)
                },
            }
        },
    }
}

// ---------------------------------------------------------------------------
// Laws.
// ---------------------------------------------------------------------------

/// Closing is safe to repeat: closing a closed session changes nothing.
pub proof fn close_is_idempotent(s: SessionView)
    ensures
        closed_view(closed_view(s)) == closed_view(s),
{
}

/// A closed session yields no sealed data: every gating call on it fails, and
/// one that the server answered with a well-formed sealed payload fails with
/// `SessionExpired`.
pub proof fn closed_session_yields_no_data(s: SessionView, p: Option<GatingPayload>, aad: Seq<u8>)
    ensures
        gating_outcome(closed_view(s), p, aad) is Err,
        (p matches Some(g) && g.success && base64_decode_of(g.sealed@) is Some) ==> gating_outcome(
            closed_view(s),
            p,
            aad,
        ) == Err::<Seq<u8>, Error>(Error::SessionExpired),
{
}

/// A missed heartbeat is not a logout: without a valid answer the session,
/// its key and its expiry stay as they were; and no heartbeat ever reopens a
/// closed session or touches the key.
pub proof fn heartbeat_never_logs_out(s: SessionView, beat: Option<HeartbeatPayload>)
    ensures
        after_heartbeat(s, None) == s,
        after_heartbeat(s, beat).closed == s.closed,
        after_heartbeat(s, beat).key == s.key,
{
}

/// While more than 4 seconds are left the heartbeat waits exactly half of them,
/// and so beats before the session expires; with 4 or fewer left (but not yet
/// lapsed) it waits 2 seconds.
pub proof fn heartbeat_beats_before_expiry(s: SessionView, now: int)
    ensures
        s.expires_at - now > 4 ==> beat_plan(s, now) == Some((s.expires_at - now) / 2) && (
        s.expires_at - now) / 2 < s.expires_at - now,
        0 <= s.expires_at - now <= 4 ==> beat_plan(s, now) == Some(2int),
        forall|remaining: int| remaining > 4 ==> #[trigger] beat_wait(remaining) == remaining / 2,
{
}

/// A variable is found by its exact name: a found value belongs to the first
/// pair whose name equals the requested one, no pair before it has that name,
/// and "not found" means no pair has it.
pub proof fn variable_lookup_is_by_exact_name(vars: Seq<(String, String)>, name: Seq<char>)
    ensures
        variable_index(vars, name, 0) < vars.len() ==> vars[variable_index(vars, name, 0)].0@ == name,
        forall|j: int| 0 <= j < variable_index(vars, name, 0) && j < vars.len() ==> #[trigger] vars[j].0@ != name,
        variable_index(vars, name, 0) >= vars.len() ==> forall|j: int| 0 <= j < vars.len() ==> #[trigger] vars[j].0@ != name,
{
    lemma_variable_index(vars, name, 0);
}

proof fn lemma_variable_index(vars: Seq<(String, String)>, name: Seq<char>, i: int)
    requires
        0 <= i <= vars.len(),
    ensures
        i <= variable_index(vars, name, i) <= vars.len(),
        variable_index(vars, name, i) < vars.len() ==> vars[variable_index(vars, name, i)].0@ == name,
        forall|j: int| i <= j < variable_index(vars, name, i) ==> #[trigger] vars[j].0@ != name,
    decreases vars.len() - i,
{
    if i < vars.len() && vars[i].0@ != name {
        lemma_variable_index(vars, name, i + 1);
    }
}

/// The heartbeat stops once the TTL has lapsed and only then: while time is
/// left it keeps retrying, and a lapsed session is never beaten again.
pub proof fn heartbeat_stops_after_lapse(s: SessionView, now: int)
    ensures
        beat_plan(s, now) is None <==> lapsed(s, now),
        !lapsed(s, now) ==> beat_plan(s, now) == Some(beat_wait(s.expires_at - now)) && beat_wait(
            s.expires_at - now,
        ) >= 2,
{
}

/// Each file is sealed under its own AAD: two names with the same AAD are the
/// same name, so a payload sealed for one file never opens as another.
pub proof fn file_aad_is_injective(a: Seq<char>, b: Seq<char>)
    requires
        file_aad_of(a) == file_aad_of(b),
    ensures
        a == b,
{
    let p = "files:".spec_bytes();
    let ea = vstd::utf8::encode_utf8(a);
    let eb = vstd::utf8::encode_utf8(b);
    assert(ea =~= file_aad_of(a).subrange(p.len() as int, file_aad_of(a).len() as int));
    assert(eb =~= file_aad_of(b).subrange(p.len() as int, file_aad_of(b).len() as int));
    vstd::utf8::encode_utf8_decode_utf8(a);
    vstd::utf8::encode_utf8_decode_utf8(b);
}

// ---------------------------------------------------------------------------
// Verified operations.
// ---------------------------------------------------------------------------

impl SessionState {
    /// The state of a freshly authenticated session.
    pub fn new(key: [u8; 32], expires_at: i64) -> (s: SessionState)
        ensures
            s@ == (SessionView { key: key@, expires_at, closed: false }),
    {
        SessionState { key, expires_at, closed: false }
    }

    /// Whether the session has been closed.
    pub fn is_closed(&self) -> (b: bool)
        ensures
            b == self@.closed,
    {
        self.closed
    }

    /// The session's expiry, in Unix seconds.
    pub fn expires_at(&self) -> (t: i64)
        ensures
            t == self@.expires_at,
    {
        self.expires_at
    }

    /// Mark the session closed and zero the session key. Safe to call more
    /// than once.
    pub fn close(&mut self)
        ensures
            final(self)@ == closed_view(old(self)@),
    {
        self.closed = true;
        self.key = [0u8; 32];
        assert(self.key@ =~= zero32());
    }

    /// Open the sealed payload of a gating call with this session's key and
    /// the endpoint's AAD. A closed session opens nothing.
    pub fn open_gating(&self, payload: Option<GatingPayload>, aad: &[u8]) -> (r: Result<Vec<u8>, Error>)
        ensures
            crate::client::bytes_result(r) == gating_outcome(self@, payload, aad@),
    {
        let g = match payload {
            Some(g) => g,
            None => return Err(Error::BadResponse),
        };
        if !g.success {
            return Err(Error::from_wire(g.error.as_str()));
        }
        let sealed = match b64_decode(g.sealed.as_str()) {
            Ok(b) => b,
            Err(e) => return Err(e),
        };
        if self.closed {
            return Err(Error::SessionExpired);
        }
        match open_sealed(self.key.as_slice(), sealed.as_slice(), aad) {
            Some(plain) => Ok(plain),
            None => Err(Error::BadResponse),
        }
    }

    /// Whether the session's TTL has genuinely lapsed at local time `now`.
    pub fn has_lapsed(&self, now: i64) -> (b: bool)
        ensures
            b == lapsed(self@, now as int),
    {
        now > self.expires_at
    }

    /// The heartbeat's next step at local time `now`: stop once the TTL has
    /// lapsed, otherwise wait half the remaining time (2 seconds when 4 or
    /// fewer are left) and beat again.
    pub fn next_beat(&self, now: i64) -> (a: BeatAction)
        requires
            now <= self@.expires_at ==> self@.expires_at - now <= i64::MAX,
        ensures
            match a {
                BeatAction::Stop => beat_plan(self@, now as int) is None,
                BeatAction::Wait(w) => beat_plan(self@, now as int) == Some(w as int),
            },
            a is Stop <==> now > self@.expires_at,
            a matches BeatAction::Wait(w) ==> if self@.expires_at - now > 4 {
                w == (self@.expires_at - now) / 2 && w < self@.expires_at - now
            } else {
                w == 2
            },
    {
        if now > self.expires_at {
            return BeatAction::Stop;
        }
        let remaining = self.expires_at - now;
        if remaining > 4 {
            BeatAction::Wait((remaining / 2) as u64)
        } else {
            BeatAction::Wait(2)
        }
    }

    /// Apply the outcome of one heartbeat (`None` when the request or its
    /// decoding failed). A missed beat is not a logout.
    pub fn apply_heartbeat(&mut self, beat: Option<HeartbeatPayload>)
        ensures
            final(self)@ == after_heartbeat(old(self)@, beat),
    {
        match beat {
            Some(hp) => {
                if hp.valid && hp.expires_at > 0 {
                    self.expires_at = hp.expires_at;
                }
            },
            None => {},
        }
    }
}

/// The value of the variable `name` in the decrypted variable map (`None`
/// when it did not decode). There is no cache and no fallback.
pub fn lookup_variable(vars: Option<Vec<(String, String)>>, name: &str) -> (r: Result<String, Error>)
    ensures
        vars is None ==> r matches Err(Error::BadResponse),
        vars matches Some(v) ==> {
            let i = variable_index(v@, name@, 0);
            if i < v@.len() {
                r matches Ok(s) && s@ == v@[i].1@
            } else {
                r matches Err(Error::NotFound(m)) && m@ == "no such variable: "@ + name@
            }
        },
        r matches Ok(s) ==> (vars matches Some(v) && exists|i: int| #![trigger v@[i]]
            0 <= i < v@.len() && v@[i].0@ == name@ && v@[i].1@ == s@ && forall|j: int|
                0 <= j < i ==> #[trigger] v@[j].0@ != name@),
        (vars matches Some(v) && (forall|j: int| 0 <= j < v@.len() ==> #[trigger] v@[j].0@ != name@))
            ==> r matches Err(Error::NotFound(_)),
{
    let v = match vars {
        Some(v) => v,
        None => return Err(Error::BadResponse),
    };
    let mut i: usize = 0;
    while i < v.len()
        invariant
            i <= v@.len(),
            vars == Some(v),
            variable_index(v@, name@, 0) == variable_index(v@, name@, i as int),
        decreases v@.len() - i,
    {
        if crate::errors::str_eq(v[i].0.as_str(), name) {
            let val = v[i].1.clone();
            let r: Result<String, Error> = Ok(val);
            proof {
                lemma_variable_index(v@, name@, 0);
                assert(variable_index(v@, name@, i as int) == i as int);
                assert(forall|j: int| 0 <= j < i as int ==> #[trigger] v@[j].0@ != name@);
                assert(vars matches Some(w) && w@ == v@);
                assert(r matches Ok(s) && s@ == v@[i as int].1@);
            }
            return r;
        }
        i = i + 1;
    }
    let mut m = "no such variable: ".to_owned();
    m.append(name);
    Err(Error::NotFound(m))
}

/// The AAD that seals the file `name`: "files:" + name.
pub fn file_aad(name: &str) -> (aad: Vec<u8>)
    ensures
        aad@ == file_aad_of(name@),
{
    let mut aad: Vec<u8> = Vec::new();
    crate::crypto::extend_bytes(&mut aad, "files:".as_bytes());
    crate::crypto::extend_bytes(&mut aad, name.as_bytes());
    aad
}

/// The answer of a webhook call: the server's body, base64-decoded and read as
/// UTF-8.
pub fn webhook_result(payload: Option<WebhookPayload>) -> (r: Result<String, Error>)
    ensures
        match r {
            Ok(s) => webhook_outcome(payload) == Ok::<Seq<char>, Error>(s@),
            Err(e) => webhook_outcome(payload) == Err::<Seq<char>, Error>(e),
        },
{
    let w = match payload {
        Some(w) => w,
        None => return Err(Error::BadResponse),
    };
    if !w.success {
        return Err(Error::from_wire(w.error.as_str()));
    }
    let decoded = match b64_decode(w.body.as_str()) {
        Ok(b) => b,
        Err(e) => return Err(e),
    };
    match string_from_utf8(decoded) {
        Ok(s) => Ok(s),
        Err(_) => Err(Error::BadResponse),
    }
}

/// The answer of a device-reset request.
pub fn device_reset_result(payload: Option<DeviceResetPayload>) -> (r: Result<(), Error>)
    ensures
        payload is None ==> r matches Err(Error::BadResponse),
        payload matches Some(d) ==> if d.success {
            r is Ok
        } else {
            r matches Err(e) && e == wire_error(d.error@)
        },
{
    let d = match payload {
        Some(d) => d,
        None => return Err(Error::BadResponse),
    };
    if !d.success {
        return Err(Error::from_wire(d.error.as_str()));
    }
    Ok(())
}

// ---------------------------------------------------------------------------
// Trusted items.
// ---------------------------------------------------------------------------

/// The error of `String::from_utf8`.
#[verifier::external_type_specification]
#[verifier::external_body]
pub struct ExFromUtf8Error(std::string::FromUtf8Error);

/// `String::from_utf8`: claimed to succeed exactly on valid UTF-8, with the
/// characters those bytes encode.
#[verifier::external_body]
fn string_from_utf8(bytes: Vec<u8>) -> (r: Result<String, std::string::FromUtf8Error>)
    ensures
        match r {
            Ok(s) => vstd::utf8::valid_utf8(bytes@) && s@ == vstd::utf8::decode_utf8(bytes@),
            Err(_) => !vstd::utf8::valid_utf8(bytes@),
        },
{
    String::from_utf8(bytes)
}

} // verus!
