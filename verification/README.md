# rudeauth

Client SDK core for a RudeAuth licensing server, verified with Verus.

Every server response is an Ed25519-signed envelope; the payload is read only
after its signature over `"rudeauth-v1:" + endpoint + ":" + sha256(data)` has
been checked against the public key pinned into the client. A handshake proves
freshness (the server echoes a random nonce), bounds clock skew, and derives a
session key by X25519 + HKDF-SHA256; gated data (variables, files) arrives
sealed with XChaCha20-Poly1305 under that key and an endpoint-specific AAD.

Layout:

- `src/` — the verified library: `crypto` (signed messages, verification, key
  derivation, sealed payloads), `client` (the pinned identity, response
  verification, the handshake's two steps), `session` (session state, gating,
  heartbeat policy), `fingerprint` (component assembly per platform), `text`
  (specified string handling), `errors`, `wire` (payload types).
- `app/` — the transport (HTTP via `ureq`), JSON decoding (`serde`), the
  heartbeat thread and the operating-system reads, calling into `src/`.
- `tests/` — tests of the library, run with the real cryptographic crates.
