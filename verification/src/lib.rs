//! RudeAuth client SDK, verified core.
//!
//! The client embeds only an application id and an Ed25519 public key. Every
//! response is signed and verified against that key before any field of it is
//! trusted, and there is deliberately no function that returns a bool meaning
//! "is licensed": a handshake ends in the parts of a session or in an [`Error`].
//!
//! This crate holds the decisions of the SDK: response verification, the
//! handshake's checks, session-key derivation, sealed-payload opening, the
//! session state and its heartbeat policy, and hardware-fingerprint assembly.
//! Transport, threads and the operating-system reads live in the application
//! layer, which hands this crate plain values.

pub mod client;
pub mod crypto;
pub mod errors;
pub mod fingerprint;
pub mod session;
pub mod text;
pub mod wire;

pub use client::{now_unix, Client};
pub use errors::Error;
pub use session::{SessionSetup, SessionState};
pub use wire::LicenseInfo;
