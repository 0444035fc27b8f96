//! A userspace VPN data plane: an authenticated, encrypted wire protocol
//! whose ciphertext can be wrapped to resemble HTTP responses from popular
//! streaming services.
//!
//! The crate covers four subsystems:
//! - the wire packet format and its framing ([`packet`]);
//! - a four-message X25519 + HKDF + HMAC-SHA256 handshake ([`handshake`]);
//! - the session data plane: ChaCha20-Poly1305 with deterministic nonces,
//!   a sliding-window anti-replay check, keepalive and rekey policy
//!   ([`session`]);
//! - a traffic-mimicry wrapper that frames ciphertext as plausible HTTP
//!   responses ([`mimicry`]).

pub mod connection;
pub mod crypto;
pub mod endian;
pub mod errors;
pub mod handshake;
pub mod ip;
pub mod mimicry;
pub mod packet;
pub mod session;

use vstd::prelude::*;

verus! {

/// Version of the wire protocol; headers carrying any other value are rejected.
pub const PROTOCOL_VERSION: u8 = 1;

/// The library's own version string.
pub fn version() -> (s: &'static str)
    ensures
        s@.len() > 0,
{
    proof {
        reveal_strlit("0.1.0");
    }
    "0.1.0"
}

} // verus!
