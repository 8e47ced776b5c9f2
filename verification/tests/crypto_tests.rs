use base64::engine::general_purpose::STANDARD;
use base64::Engine;
use chacha20poly1305::aead::{Aead, KeyInit, Payload};
use chacha20poly1305::{XChaCha20Poly1305, XNonce};
use ed25519_dalek::{Signer, SigningKey};
use hkdf::Hkdf;
use sha2::{Digest, Sha256};

use rudeauth::crypto::{derive_session_key, ephemeral, open_sealed, random_nonce, signing_input, verify};

fn hex(bytes: &[u8]) -> String {
    bytes.iter().map(|b| format!("{:02x}", b)).collect()
}

fn seal(key: &[u8; 32], nonce: [u8; 24], plaintext: &[u8], aad: &[u8]) -> Vec<u8> {
    let cipher = XChaCha20Poly1305::new_from_slice(key).unwrap();
    let ct = cipher
        .encrypt(XNonce::from_slice(&nonce), Payload { msg: plaintext, aad })
        .unwrap();
    let mut blob = nonce.to_vec();
    blob.extend_from_slice(&ct);
    blob
}

#[test]
fn verify_matches_the_server_signature() {
    let sk = SigningKey::from_bytes(&[7u8; 32]);
    let pk = sk.verifying_key().to_bytes();
    let data = br#"{"success":true,"client_nonce":"abc"}"#.to_vec();
    let endpoint = "handshake";

    // The bytes we sign are exactly "rudeauth-v1:" + endpoint + ":" + sha256(data).
    let mut expected = b"rudeauth-v1:handshake:".to_vec();
    expected.extend_from_slice(&Sha256::digest(&data));
    let msg = signing_input(endpoint, &data);
    assert_eq!(hex(&msg), hex(&expected));
    assert_eq!(msg.len(), 13 + endpoint.len() + 32);

    let sig = sk.sign(&msg).to_bytes();
    assert!(verify(&pk, endpoint, &data, &sig));

    // A one-bit tamper of the payload is rejected.
    let mut tampered = data.clone();
    tampered[0] ^= 0x01;
    assert!(!verify(&pk, endpoint, &tampered, &sig));

    // The same signature under a different endpoint is rejected.
    assert!(!verify(&pk, "variables", &data, &sig));
}

#[test]
fn verify_rejects_wrong_lengths() {
    let sk = SigningKey::from_bytes(&[7u8; 32]);
    let pk = sk.verifying_key().to_bytes();
    let data = b"payload".to_vec();
    let sig = sk.sign(&signing_input("files", &data)).to_bytes();
    assert!(verify(&pk, "files", &data, &sig));
    assert!(!verify(&pk[..31], "files", &data, &sig));
    assert!(!verify(&pk, "files", &data, &sig[..63]));
    let other = SigningKey::from_bytes(&[8u8; 32]).verifying_key().to_bytes();
    assert!(!verify(&other, "files", &data, &sig));
}

#[test]
fn derive_session_key_matches_the_server() {
    let a_priv = [0x11u8; 32];
    let b_priv = [0x22u8; 32];
    let a_pub = x25519_dalek::x25519(a_priv, x25519_dalek::X25519_BASEPOINT_BYTES);
    let b_pub = x25519_dalek::x25519(b_priv, x25519_dalek::X25519_BASEPOINT_BYTES);
    let session_id = "test-session-0001";

    let client = derive_session_key(&a_priv, &b_pub, session_id).unwrap();
    let server = derive_session_key(&b_priv, &a_pub, session_id).unwrap();
    assert_eq!(client, server);

    // The construction is X25519 then HKDF-SHA256 with the session salt.
    let shared = x25519_dalek::x25519(a_priv, b_pub);
    let hk = Hkdf::<Sha256>::new(Some(b"rudeauth-v1-session"), &shared);
    let mut expected = [0u8; 32];
    hk.expand(session_id.as_bytes(), &mut expected).unwrap();
    assert_eq!(hex(&client), hex(&expected));
    assert_ne!(client, shared);

    // A different session id gives a different key.
    assert_ne!(derive_session_key(&a_priv, &b_pub, "other").unwrap(), client);
}

#[test]
fn derive_session_key_refuses_low_order_and_bad_lengths() {
    let a_priv = [0x11u8; 32];
    assert_eq!(derive_session_key(&a_priv, &[0u8; 32], "s"), None);
    assert_eq!(derive_session_key(&a_priv[..31], &[9u8; 32], "s"), None);
    assert_eq!(derive_session_key(&a_priv, &[9u8; 33], "s"), None);
}

#[test]
fn open_sealed_matches_the_server() {
    let key = [0x42u8; 32];
    let blob = seal(&key, [3u8; 24], b"core-dll-bytes", b"files:core.dll");

    let plain = open_sealed(&key, &blob, b"files:core.dll").unwrap();
    assert_eq!(plain, b"core-dll-bytes");

    // Wrong AAD (a different endpoint) must not open.
    assert!(open_sealed(&key, &blob, b"variables").is_none());
}

#[test]
fn open_sealed_refuses_short_blobs_and_bad_keys() {
    let key = [0x42u8; 32];
    let blob = seal(&key, [3u8; 24], b"x", b"variables");
    assert!(open_sealed(&key, &blob[..23], b"variables").is_none());
    assert!(open_sealed(&key[..16], &blob, b"variables").is_none());
    let mut tampered = blob.clone();
    let last = tampered.len() - 1;
    tampered[last] ^= 1;
    assert!(open_sealed(&key, &tampered, b"variables").is_none());
    assert!(open_sealed(&[0x43u8; 32], &blob, b"variables").is_none());
}

#[test]
fn ephemeral_keypair_is_consistent() {
    let (public, private) = ephemeral().unwrap();
    assert_eq!(public, x25519_dalek::x25519(private, x25519_dalek::X25519_BASEPOINT_BYTES));
    let (public2, _) = ephemeral().unwrap();
    assert_ne!(public, public2);
    let n1 = random_nonce().unwrap();
    let n2 = random_nonce().unwrap();
    assert_ne!(n1, n2);
    assert_ne!(STANDARD.encode(n1), STANDARD.encode(n2));
}

#[test]
fn ephemeral_keypairs_agree_on_the_session_key() {
    let (pa, a) = ephemeral().unwrap();
    let (pb, b) = ephemeral().unwrap();
    for id in ["s-1", "", "session ✓"] {
        let client = derive_session_key(&a, &pb, id);
        let server = derive_session_key(&b, &pa, id);
        assert!(client.is_some());
        assert_eq!(client, server);
    }
}
