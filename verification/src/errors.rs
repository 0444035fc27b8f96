//! Error taxonomy of the protocol.
//!
//! Every error is plain data so that contracts can state exactly which error
//! a function returns for which input.

use vstd::prelude::*;

verus! {

/// Errors of the packet codec.
#[derive(Clone, Copy, Debug, PartialEq, Eq, Structural)]
pub enum PacketError {
    /// The header's version byte is not [`crate::PROTOCOL_VERSION`].
    UnsupportedVersion(u8),
    /// The buffer's size does not match what the header declares.
    InvalidPacketSize { expected: usize, actual: usize },
    /// A payload length that disagrees with the payload itself.
    InvalidPayloadSize { declared: usize, actual: usize },
    /// The packet exceeds the admissible size.
    PacketTooLarge { size: usize, max: usize },
    /// The flags byte uses the reserved bit.
    InvalidFlags(u8),
    /// The padding exceeds the admissible size.
    InvalidPaddingSize { size: usize, max: usize },
    /// The header bytes could not be read.
    HeaderParseError,
    /// Fewer bytes than a header needs.
    InsufficientData { required: usize, available: usize },
    /// Fragment flags out of order.
    InvalidFragmentSequence,
    /// The packet could not be serialized.
    SerializationError,
}

/// Errors of the cryptographic layer.
#[derive(Clone, Copy, Debug, PartialEq, Eq, Structural)]
pub enum CryptoError {
    /// Key generation failed.
    KeyGeneration,
    /// The X25519 exchange failed.
    KeyExchange,
    /// HKDF key derivation failed.
    KeyDerivation,
    /// AEAD encryption failed.
    Encryption,
    /// AEAD decryption failed: wrong key, nonce, associated data, or a
    /// tampered ciphertext.
    Decryption,
    /// An authentication tag did not verify.
    Authentication,
    /// Producing a signature failed.
    Signature,
    /// A signature did not verify.
    SignatureVerification,
    /// A key of the wrong size was supplied.
    InvalidKeySize { expected: usize, actual: usize },
    /// A nonce of the wrong size was supplied.
    InvalidNonceSize { expected: usize, actual: usize },
    /// An authentication tag of the wrong size was supplied.
    InvalidAuthTagSize { expected: usize, actual: usize },
    /// The nonce counter cannot be incremented further.
    NonceOverflow,
    /// Drawing random bytes failed.
    RandomGeneration,
}

/// Errors of the handshake.
#[derive(Clone, Copy, Debug, PartialEq, Eq, Structural)]
pub enum HandshakeError {
    /// A message of the wrong type arrived; both fields are message type tags.
    UnexpectedMessage { expected: u8, actual: u8 },
    /// The wire carried an unknown mimicry profile identifier.
    UnsupportedMimicryProfile(u16),
    /// The handshake took too long.
    Timeout { timeout_ms: u64 },
    /// A message was too short or otherwise malformed.
    InvalidMessageFormat,
    /// An HMAC confirmation tag did not match the transcript.
    VerificationFailed,
    /// The handshake had already completed.
    AlreadyCompleted { session_id: u64 },
    /// A message arrived in a state that does not expect it.
    InvalidState,
    /// A random value was seen twice.
    ReplayDetected,
}

/// Errors of session management.
#[derive(Clone, Copy, Debug, PartialEq, Eq, Structural)]
pub enum SessionError {
    /// No session with this id.
    SessionNotFound { session_id: u64 },
    /// The session's lifetime elapsed.
    SessionExpired { session_id: u64 },
    /// The sequence number was already accepted once.
    DuplicateSequenceNumber { session_id: u64, seq: u32 },
    /// The sequence number lies below the replay window.
    SequenceOutOfWindow { session_id: u64, seq: u32 },
    /// The session table is full.
    TooManySessions { current: usize, max: usize },
    /// A session with this id already exists.
    SessionAlreadyExists { session_id: u64 },
    /// The TX counter ran out; the session needs a new key.
    RekeyRequired { session_id: u64 },
    /// Rekeying failed.
    RekeyFailed { session_id: u64 },
    /// The packet's timestamp drifts too far from the local clock.
    InvalidTimestamp { session_id: u64, delta_sec: i64 },
    /// No traffic arrived within the keepalive timeout.
    KeepaliveTimeout { session_id: u64 },
}

/// Errors of the traffic-mimicry wrapper.
#[derive(Clone, Copy, Debug, PartialEq, Eq, Structural)]
pub enum MimicryError {
    /// The HTTP message is incomplete or malformed.
    ParseError,
    /// The profile identifier is unknown.
    UnsupportedProfile,
    /// The HTTP message carries no body.
    InvalidFormat,
    /// Wrapping failed.
    WrapError,
    /// Unwrapping failed.
    UnwrapError,
}

/// The protocol's top-level error, wrapping each subsystem's kind.
#[derive(Clone, Copy, Debug, PartialEq, Eq, Structural)]
pub enum LlpError {
    /// An error of the packet codec.
    PacketError(PacketError),
    /// An error of the cryptographic layer.
    CryptoError(CryptoError),
    /// An error of the handshake.
    HandshakeError(HandshakeError),
    /// An error of session management.
    SessionError(SessionError),
}

} // verus!
