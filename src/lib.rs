//! Secure-channel core: nonce bookkeeping, the handshake state machine,
//! the wire format of channel messages, provenance tags on decrypted
//! plaintext, and validation of responses relayed by an untrusted hub.
//!
//! Cryptographic work (Diffie-Hellman, key derivation, authentication tags,
//! AEAD sealing and opening) is performed by the caller; the library decides
//! what is sent, what is accepted, and how each session's state evolves.

use vstd::prelude::*;

pub mod error;
pub mod nonce;
pub mod wire;
pub mod local_info;
pub mod relay;
pub mod session;
pub mod laws;

verus! {

} // verus!
