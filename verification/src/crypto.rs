//! Crypto primitives, matching the RudeAuth server: the signed-message layout,
//! response-signature verification, session-key derivation and sealed-payload
//! opening. The primitives themselves (SHA-256, Ed25519, X25519, HKDF,
//! XChaCha20-Poly1305, the system RNG) are the outside crates', reached through
//! the trusted items at the bottom of this file; everything around them is
//! verified here.

use chacha20poly1305::aead::{Aead, KeyInit, Payload};
use chacha20poly1305::{XChaCha20Poly1305, XNonce};
use ed25519_dalek::{Signature, Verifier, VerifyingKey};
use hkdf::Hkdf;
use sha2::{Digest, Sha256};
use vstd::prelude::*;
use vstd::string::*;

verus! {

// ---------------------------------------------------------------------------
// Names for what the outside primitives compute.
// ---------------------------------------------------------------------------

/// The SHA-256 digest of `data`.
pub uninterp spec fn sha256_of(data: Seq<u8>) -> Seq<u8>;

/// Whether Ed25519 (non-strict `Verifier::verify`, after decoding the 32-byte
/// public key as a point) accepts `signature` on `message` under `public_key`.
pub uninterp spec fn ed25519_accepts(public_key: Seq<u8>, message: Seq<u8>, signature: Seq<u8>) -> bool;

/// The RFC 7748 X25519 function of a clamped scalar and a u-coordinate.
pub uninterp spec fn x25519_of(scalar: Seq<u8>, point: Seq<u8>) -> Seq<u8>;

/// The 32-byte output of HKDF-SHA256 (extract with `salt`, expand with `info`).
pub uninterp spec fn hkdf_sha256_of(salt: Seq<u8>, ikm: Seq<u8>, info: Seq<u8>) -> Seq<u8>;

/// XChaCha20-Poly1305 decryption: the plaintext, or `None` when the tag does
/// not authenticate `ciphertext` (tag appended) under `key`, `nonce` and `aad`.
pub uninterp spec fn xchacha20poly1305_open_of(
    key: Seq<u8>,
    nonce: Seq<u8>,
    ciphertext: Seq<u8>,
    aad: Seq<u8>,
) -> Option<Seq<u8>>;

// ---------------------------------------------------------------------------
// Specifications of this module's own constructions.
// ---------------------------------------------------------------------------

/// The exact bytes the server signs: "rudeauth-v1:" + endpoint + ":" + digest.
pub open spec fn signed_message(endpoint: Seq<u8>, digest: Seq<u8>) -> Seq<u8> {
    "rudeauth-v1:".spec_bytes() + endpoint + seq![58u8] + digest
}

/// The salt of the session-key derivation.
pub open spec fn session_salt() -> Seq<u8> {
    "rudeauth-v1-session".spec_bytes()
}

/// The X25519 base point: u = 9.
pub open spec fn basepoint() -> Seq<u8> {
    Seq::new(32, |i: int| if i == 0 { 9u8 } else { 0u8 })
}

/// Thirty-two zero bytes: the shared point of a low-order public key.
pub open spec fn zero32() -> Seq<u8> {
    Seq::new(32, |i: int| 0u8)
}

/// Diffie-Hellman agreement of the public key `public` made from `secret`: for
/// every other 32-byte secret, applying it to `public` gives what `secret`
/// gives on the other secret's public key.
pub open spec fn agrees_with_all(public: Seq<u8>, secret: Seq<u8>) -> bool {
    forall|other: Seq<u8>|
        other.len() == 32 ==> #[trigger] x25519_of(other, public) == x25519_of(
            secret,
            x25519_of(other, basepoint()),
        )
}

/// What a keypair from `ephemeral` satisfies: 32-byte halves, the public key
/// the secret's multiple of the base point, and Diffie-Hellman agreement.
pub open spec fn ephemeral_pair(public: Seq<u8>, secret: Seq<u8>) -> bool {
    &&& public.len() == 32
    &&& secret.len() == 32
    &&& public == x25519_of(secret, basepoint())
    &&& agrees_with_all(public, secret)
}

/// What `verify` answers for these inputs.
pub open spec fn signature_valid(public_key: Seq<u8>, endpoint: Seq<u8>, data: Seq<u8>, sig: Seq<u8>) -> bool {
    &&& public_key.len() == 32
    &&& sig.len() == 64
    &&& ed25519_accepts(public_key, signed_message(endpoint, sha256_of(data)), sig)
}

/// What `derive_session_key` returns for these inputs.
pub open spec fn session_key_of(our_priv: Seq<u8>, their_pub: Seq<u8>, session_id: Seq<u8>) -> Option<Seq<u8>> {
    if our_priv.len() != 32 || their_pub.len() != 32 {
        None
    } else if x25519_of(our_priv, their_pub) == zero32() {
        None
    } else {
        Some(hkdf_sha256_of(session_salt(), x25519_of(our_priv, their_pub), session_id))
    }
}

/// What `open_sealed` returns: the 24-byte nonce is the blob's head, the rest
/// is ciphertext and tag.
pub open spec fn sealed_plaintext(session_key: Seq<u8>, blob: Seq<u8>, aad: Seq<u8>) -> Option<Seq<u8>> {
    if blob.len() < 24 || session_key.len() != 32 {
        None
    } else {
        xchacha20poly1305_open_of(session_key, blob.subrange(0, 24), blob.subrange(24, blob.len() as int), aad)
    }
}

/// The bytes an optional byte vector holds.
pub open spec fn opt_bytes(o: Option<Vec<u8>>) -> Option<Seq<u8>> {
    match o {
        Some(v) => Some(v@),
        None => None,
    }
}

// ---------------------------------------------------------------------------
// Laws.
// ---------------------------------------------------------------------------

/// The signed message determines the endpoint and the digest: a signature made
/// for one endpoint (or one payload) never covers another, because the digest
/// has a fixed length and so fixes where the endpoint ends.
pub proof fn signed_message_is_injective(e1: Seq<u8>, d1: Seq<u8>, e2: Seq<u8>, d2: Seq<u8>)
    requires
        d1.len() == 32,
        d2.len() == 32,
        signed_message(e1, d1) == signed_message(e2, d2),
    ensures
        e1 == e2,
        d1 == d2,
{
    let p = "rudeauth-v1:".spec_bytes();
    let pl: int = p.len() as int;
    let m = signed_message(e1, d1);
    assert(m == signed_message(e2, d2));
    assert(m.len() == pl + e1.len() + 1 + 32);
    assert(m.len() == pl + e2.len() + 1 + 32);
    assert(e1.len() == e2.len());
    let el: int = e1.len() as int;
    assert(e1 =~= m.subrange(pl, pl + el));
    assert(e2 =~= m.subrange(pl, pl + el));
    assert(d1 =~= m.subrange(pl + el + 1, m.len() as int));
    assert(d2 =~= m.subrange(pl + el + 1, m.len() as int));
}

/// Two `signing_input` results agree only for the same endpoint and the same
/// digest: with the digest lengths that `signing_input` reports, its message
/// names one endpoint and one payload digest.
pub proof fn signing_input_is_injective(a: &str, d1: Seq<u8>, b: &str, d2: Seq<u8>)
    requires
        sha256_of(d1).len() == 32,
        sha256_of(d2).len() == 32,
        signed_message(a.spec_bytes(), sha256_of(d1)) == signed_message(b.spec_bytes(), sha256_of(d2)),
    ensures
        a@ == b@,
        sha256_of(d1) == sha256_of(d2),
{
    signed_endpoint_is_unique(a, b, sha256_of(d1), sha256_of(d2));
}

/// A response is accepted exactly when Ed25519 accepts the signature on
/// "rudeauth-v1:" + endpoint + ":" + sha256(data) under a 32-byte key, with a
/// 64-byte signature; the payload enters only through its digest, so its size
/// plays no part: two payloads with the same digest are judged alike.
pub proof fn signature_check_is_ed25519_over_the_digest(
    pk: Seq<u8>,
    endpoint: Seq<u8>,
    d1: Seq<u8>,
    d2: Seq<u8>,
    sig: Seq<u8>,
)
    ensures
        signature_valid(pk, endpoint, d1, sig) <==> (pk.len() == 32 && sig.len() == 64 && ed25519_accepts(
            pk,
            "rudeauth-v1:".spec_bytes() + endpoint + seq![58u8] + sha256_of(d1),
            sig,
        )),
        sha256_of(d1) == sha256_of(d2) ==> (signature_valid(pk, endpoint, d1, sig) == signature_valid(
            pk,
            endpoint,
            d2,
            sig,
        )),
{
}

/// The session key is HKDF-SHA256 with the salt "rudeauth-v1-session", the
/// X25519 shared point as input key material and the session id's full bytes
/// as info, for ids of any length; with a wrong-length key or a low-order
/// (all-zero) shared point there is no key.
pub proof fn session_key_is_hkdf_of_the_shared_point(a: Seq<u8>, b: Seq<u8>, id: Seq<u8>)
    ensures
        (a.len() == 32 && b.len() == 32 && x25519_of(a, b) != Seq::new(32, |i: int| 0u8))
            ==> session_key_of(a, b, id) == Some(
            hkdf_sha256_of("rudeauth-v1-session".spec_bytes(), x25519_of(a, b), id),
        ),
        (a.len() != 32 || b.len() != 32 || x25519_of(a, b) == Seq::new(32, |i: int| 0u8))
            ==> session_key_of(a, b, id) is None,
{
}

/// Client and server derive the same session key: with two keypairs of the
/// kind `ephemeral` makes, each side's secret on the other's public key gives
/// the same shared point, and so the same key (or, on a low-order point, no key
/// on either side).
pub proof fn session_keys_agree(pa: Seq<u8>, a: Seq<u8>, pb: Seq<u8>, b: Seq<u8>, session_id: Seq<u8>)
    requires
        ephemeral_pair(pa, a),
        ephemeral_pair(pb, b),
    ensures
        session_key_of(a, pb, session_id) == session_key_of(b, pa, session_id),
{
    assert(x25519_of(b, pa) == x25519_of(a, x25519_of(b, basepoint())));
}

/// Two endpoint names whose signed messages agree are the same name: the
/// endpoint's UTF-8 bytes determine its characters.
pub proof fn signed_endpoint_is_unique(a: &str, b: &str, d1: Seq<u8>, d2: Seq<u8>)
    requires
        d1.len() == 32,
        d2.len() == 32,
        signed_message(a.spec_bytes(), d1) == signed_message(b.spec_bytes(), d2),
    ensures
        a@ == b@,
        d1 == d2,
{
    signed_message_is_injective(a.spec_bytes(), d1, b.spec_bytes(), d2);
    vstd::utf8::encode_utf8_decode_utf8(a@);
    vstd::utf8::encode_utf8_decode_utf8(b@);
}

// ---------------------------------------------------------------------------
// Verified constructions.
// ---------------------------------------------------------------------------

/// Copy a slice of exactly `N` bytes into an array.
pub fn to_array<const N: usize>(s: &[u8]) -> (a: [u8; N])
    requires
        s@.len() == N,
    ensures
        a@ == s@,
{
    let mut a: [u8; N] = [0u8; N];
    let mut i: usize = 0;
    while i < N
        invariant
            i <= N,
            s@.len() == N,
            forall|j: int| 0 <= j < i ==> a@[j] == s@[j],
        decreases N - i,
    {
        a[i] = s[i];
        i = i + 1;
    }
    assert(a@ =~= s@);
    a
}

/// Append every byte of `s` to `v`.
pub fn extend_bytes(v: &mut Vec<u8>, s: &[u8])
    ensures
        final(v)@ == old(v)@ + s@,
{
    let ghost start = v@;
    let mut i: usize = 0;
    while i < s.len()
        invariant
            i <= s@.len(),
            v@ == start + s@.subrange(0, i as int),
        decreases s@.len() - i,
    {
        v.push(s[i]);
        i = i + 1;
        assert(v@ =~= start + s@.subrange(0, i as int));
    }
    assert(s@.subrange(0, s@.len() as int) =~= s@);
}

/// True when every byte of `a` is zero.
pub fn is_zero32(a: &[u8; 32]) -> (z: bool)
    ensures
        z == (a@ == zero32()),
{
    let mut i: usize = 0;
    while i < 32
        invariant
            i <= 32,
            forall|j: int| 0 <= j < i ==> a@[j] == 0u8,
        decreases 32 - i,
    {
        if a[i] != 0 {
            assert(a@[i as int] != zero32()[i as int]);
            return false;
        }
        i = i + 1;
    }
    assert(a@ =~= zero32());
    true
}

/// The signature prefix "rudeauth-v1:" is twelve bytes long.
pub proof fn sig_prefix_len()
    ensures
        "rudeauth-v1:".spec_bytes().len() == 12,
{
    reveal_strlit("rudeauth-v1:");
    let c = "rudeauth-v1:"@;
    assert(c.len() == 12);
    assert(vstd::utf8::is_ascii_chars(c));
    vstd::utf8::is_ascii_chars_encode_utf8(c);
}

/// The exact bytes the server signs: "rudeauth-v1:" + endpoint + ":" + sha256(data),
/// the digest being 32 bytes, so 13 + endpoint + 32 bytes in all.
pub fn signing_input(endpoint: &str, data: &[u8]) -> (msg: Vec<u8>)
    ensures
        msg@ == signed_message(endpoint.spec_bytes(), sha256_of(data@)),
        sha256_of(data@).len() == 32,
        msg@.len() == 13 + endpoint.spec_bytes().len() + 32,
{
    proof {
        sig_prefix_len();
    }
    let digest = sha256(data);
    let mut msg: Vec<u8> = Vec::new();
    extend_bytes(&mut msg, "rudeauth-v1:".as_bytes());
    extend_bytes(&mut msg, endpoint.as_bytes());
    msg.push(58u8);
    extend_bytes(&mut msg, digest.as_slice());
    assert(msg@ =~= signed_message(endpoint.spec_bytes(), sha256_of(data@)));
    msg
}

/// True only if `sig` is the pinned key's signature over `data` for `endpoint`.
/// Every response must pass this check before any of its fields is read.
pub fn verify(public_key: &[u8], endpoint: &str, data: &[u8], sig: &[u8]) -> (ok: bool)
    ensures
        ok == signature_valid(public_key@, endpoint.spec_bytes(), data@, sig@),
        ok == (public_key@.len() == 32 && sig@.len() == 64 && ed25519_accepts(
            public_key@,
            "rudeauth-v1:".spec_bytes() + endpoint.spec_bytes() + seq![58u8] + sha256_of(data@),
            sig@,
        )),
{
    if public_key.len() != 32 {
        return false;
    }
    if sig.len() != 64 {
        return false;
    }
    let pk: [u8; 32] = to_array(public_key);
    let sig: [u8; 64] = to_array(sig);
    let msg = signing_input(endpoint, data);
    ed25519_verify(&pk, msg.as_slice(), &sig)
}

/// X25519(our_priv, their_pub), then HKDF-SHA256 with the constant session salt
/// and the session id as info. `None` on a low-order (all-zero) shared point,
/// or when either key is not 32 bytes long.
pub fn derive_session_key(our_priv: &[u8], their_pub: &[u8], session_id: &str) -> (key: Option<[u8; 32]>)
    ensures
        match key {
            Some(k) => session_key_of(our_priv@, their_pub@, session_id.spec_bytes()) == Some(k@),
            None => session_key_of(our_priv@, their_pub@, session_id.spec_bytes()) is None,
        },
        (our_priv@.len() == 32 && their_pub@.len() == 32 && x25519_of(our_priv@, their_pub@) != zero32())
            ==> (key matches Some(k) && k@ == hkdf_sha256_of(
            "rudeauth-v1-session".spec_bytes(),
            x25519_of(our_priv@, their_pub@),
            session_id.spec_bytes(),
        )),
{
    if our_priv.len() != 32 || their_pub.len() != 32 {
        return None;
    }
    let our: [u8; 32] = to_array(our_priv);
    let their: [u8; 32] = to_array(their_pub);
    let shared = x25519(our, their);
    if is_zero32(&shared) {
        return None;
    }
    match hkdf_sha256(
        "rudeauth-v1-session".as_bytes(),
        shared.as_slice(),
        session_id.as_bytes(),
    ) {
        Ok(k) => Some(k),
        Err(_) => None,
    }
}

/// Open a sealed blob (24-byte XChaCha20-Poly1305 nonce prepended) with the
/// session key and the endpoint's AAD. `None` if the blob is too short, the key
/// is not 32 bytes, or the tag or AAD does not check out.
pub fn open_sealed(session_key: &[u8], blob: &[u8], aad: &[u8]) -> (plain: Option<Vec<u8>>)
    ensures
        opt_bytes(plain) == sealed_plaintext(session_key@, blob@, aad@),
{
    if blob.len() < 24 {
        return None;
    }
    if session_key.len() != 32 {
        return None;
    }
    let key: [u8; 32] = to_array(session_key);
    let nonce: [u8; 24] = to_array(vstd::slice::slice_subrange(blob, 0, 24));
    let body = vstd::slice::slice_subrange(blob, 24, blob.len());
    xchacha20poly1305_open(&key, &nonce, body, aad)
}

/// A fresh X25519 keypair for one handshake, returned as (public, private);
/// `None` when the system RNG is unavailable.
pub fn ephemeral() -> (pair: Option<([u8; 32], [u8; 32])>)
    ensures
        pair matches Some((public, private)) ==> ephemeral_pair(public@, private@),
{
    match random_32() {
        Some(private) => {
            let public = x25519(private, x25519_basepoint());
            Some((public, private))
        },
        None => None,
    }
}

/// 32 random bytes for the anti-replay nonce the server must echo back;
/// `None` when the system RNG is unavailable.
pub fn random_nonce() -> (nonce: Option<[u8; 32]>) {
    random_32()
}

// ---------------------------------------------------------------------------
// Trusted items: the outside primitives.
// ---------------------------------------------------------------------------

/// The error of `hkdf::Hkdf::expand`.
#[verifier::external_type_specification]
#[verifier::external_body]
pub struct ExHkdfInvalidLength(hkdf::InvalidLength);

/// `sha2::Sha256::digest`: claimed to return the SHA-256 digest of `data`.
#[verifier::external_body]
fn sha256(data: &[u8]) -> (digest: [u8; 32])
    ensures
        digest@ == sha256_of(data@),
{
    Sha256::digest(data).into()
}

/// `ed25519_dalek::VerifyingKey::from_bytes` followed by `Verifier::verify`
/// (with `Signature::from_bytes`): claimed to be true exactly when the key
/// decodes and the signature verifies, which `ed25519_accepts` names.
#[verifier::external_body]
fn ed25519_verify(public_key: &[u8; 32], message: &[u8], signature: &[u8; 64]) -> (ok: bool)
    ensures
        ok == ed25519_accepts(public_key@, message@, signature@),
{
    match VerifyingKey::from_bytes(public_key) {
        Ok(key) => key.verify(message, &Signature::from_bytes(signature)).is_ok(),
        Err(_) => false,
    }
}

/// `x25519_dalek::x25519`: claimed to compute the function that `x25519_of` names.
/// For a public key (the base point's multiple), it also claims the
/// Diffie-Hellman agreement that the crate documents: any other 32-byte secret
/// applied to this public key gives what this secret gives on the other's
/// public key.
#[verifier::external_body]
fn x25519(scalar: [u8; 32], point: [u8; 32]) -> (out: [u8; 32])
    ensures
        out@ == x25519_of(scalar@, point@),
        point@ == basepoint() ==> agrees_with_all(out@, scalar@),
{
    x25519_dalek::x25519(scalar, point)
}

/// `x25519_dalek::X25519_BASEPOINT_BYTES`: claimed to be u = 9, as its source shows.
#[verifier::external_body]
fn x25519_basepoint() -> (b: [u8; 32])
    ensures
        b@ == basepoint(),
{
    x25519_dalek::X25519_BASEPOINT_BYTES
}

/// `hkdf::Hkdf::<Sha256>::new(Some(salt), ikm)` then `expand(info, ..)` into 32
/// bytes: claimed to succeed (the source refuses only outputs longer than
/// 255 * 32 bytes) with the bytes that `hkdf_sha256_of` names.
#[verifier::external_body]
fn hkdf_sha256(salt: &[u8], ikm: &[u8], info: &[u8]) -> (okm: Result<[u8; 32], hkdf::InvalidLength>)
    ensures
        match okm {
            Ok(k) => k@ == hkdf_sha256_of(salt@, ikm@, info@),
            Err(_) => false,
        },
{
    let hk = Hkdf::<Sha256>::new(Some(salt), ikm);
    let mut okm = [0u8; 32];
    hk.expand(info, &mut okm).map(|_| okm)
}

/// `XChaCha20Poly1305::new` and `Aead::decrypt` with the given nonce and AAD:
/// claimed to return what `xchacha20poly1305_open_of` names, a failed tag
/// check (the outside error) becoming `None`.
#[verifier::external_body]
fn xchacha20poly1305_open(key: &[u8; 32], nonce: &[u8; 24], ciphertext: &[u8], aad: &[u8]) -> (plain: Option<Vec<u8>>)
    ensures
        opt_bytes(plain) == xchacha20poly1305_open_of(key@, nonce@, ciphertext@, aad@),
{
    XChaCha20Poly1305::new(key.into())
        .decrypt(XNonce::from_slice(nonce), Payload { msg: ciphertext, aad })
        .ok()
}

/// `getrandom::getrandom` on a 32-byte buffer, its error becoming `None`.
/// Nothing is claimed of the bytes: they come from the system RNG, and the
/// call may fail.
#[verifier::external_body]
fn random_32() -> (r: Option<[u8; 32]>) {
    let mut buf = [0u8; 32];
    getrandom::getrandom(&mut buf).ok().map(|_| buf)
}

} // verus!
