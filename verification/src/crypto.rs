//! Cryptographic primitives: X25519 key agreement, HKDF-SHA256 key
//! derivation, ChaCha20-Poly1305 AEAD, HMAC-SHA256, Ed25519 signatures,
//! BLAKE3 hashing, and a secure source of random bytes.
//!
//! Each outside call stands behind a trusted wrapper whose contract names
//! the call's result; everything around the calls is verified.

use vstd::prelude::*;

use chacha20poly1305::aead::{Aead, KeyInit, Payload};
use chacha20poly1305::{ChaCha20Poly1305, Key, Nonce};
use ed25519_dalek::{Signer, Verifier};
use hkdf::Hkdf;
use rand::rngs::OsRng;
use rand::RngCore;
use sha2::Sha256;
use x25519_dalek::{PublicKey, StaticSecret};

use crate::endian::{u32_le, u64_le};
use crate::errors::{CryptoError, LlpError};

verus! {

/// Size of an X25519 key in bytes.
pub const X25519_KEY_SIZE: usize = 32;

/// Size of a ChaCha20 key in bytes.
pub const CHACHA20_KEY_SIZE: usize = 32;

/// Size of a ChaCha20-Poly1305 nonce in bytes.
pub const CHACHA20_NONCE_SIZE: usize = 12;

/// Size of a Poly1305 tag in bytes.
pub const POLY1305_TAG_SIZE: usize = 16;

/// Size of each side's random contribution to the handshake.
pub const RANDOM_SIZE: usize = 32;

/// Size of an Ed25519 signature in bytes.
pub const ED25519_SIGNATURE_SIZE: usize = 64;

/// Size of a BLAKE3 hash in bytes.
pub const BLAKE3_HASH_SIZE: usize = 32;

/// What ChaCha20-Poly1305 sealing returns: ciphertext with the tag appended.
pub uninterp spec fn aead_seal(key: Seq<u8>, nonce: Seq<u8>, aad: Seq<u8>, pt: Seq<u8>) -> Seq<u8>;

/// What ChaCha20-Poly1305 opening returns: the plaintext when the tag
/// verifies under this key, nonce and associated data, nothing otherwise.
pub uninterp spec fn aead_open(key: Seq<u8>, nonce: Seq<u8>, aad: Seq<u8>, ct: Seq<u8>) -> Option<
    Seq<u8>,
>;

/// What HKDF-SHA256 yields for 32 bytes of output keying material.
pub uninterp spec fn hkdf_sha256_32(salt: Seq<u8>, ikm: Seq<u8>, info: Seq<u8>) -> Seq<u8>;

/// What HMAC-SHA256 computes.
pub uninterp spec fn hmac_sha256_of(key: Seq<u8>, data: Seq<u8>) -> Seq<u8>;

/// The X25519 public key derived from 32 secret bytes.
pub uninterp spec fn x25519_pub_of(secret: Seq<u8>) -> Seq<u8>;

/// The X25519 shared secret of a secret key and a peer's public key.
pub uninterp spec fn x25519_dh_of(secret: Seq<u8>, peer_public: Seq<u8>) -> Seq<u8>;

/// What BLAKE3 hashes a byte string to.
pub uninterp spec fn blake3_of(data: Seq<u8>) -> Seq<u8>;

/// The Ed25519 public key derived from a 32-byte seed.
pub uninterp spec fn ed25519_pub_of(seed: Seq<u8>) -> Seq<u8>;

/// The Ed25519 signature of a message under a seed's key.
pub uninterp spec fn ed25519_sign_of(seed: Seq<u8>, msg: Seq<u8>) -> Seq<u8>;

/// Whether an Ed25519 signature verifies under a public key.
pub uninterp spec fn ed25519_verifies(pk: Seq<u8>, msg: Seq<u8>, sig: Seq<u8>) -> bool;

/// Draw `len` random bytes from the operating system.
///
/// Relies on rand's `OsRng::fill_bytes`, which fills the whole buffer.
#[verifier::external_body]
pub fn random_bytes(len: usize) -> (r: Vec<u8>)
    ensures
        r@.len() == len,
{
    let mut bytes = vec![0u8; len];
    OsRng.fill_bytes(&mut bytes);
    bytes
}

/// Seal a plaintext under ChaCha20-Poly1305.
///
/// Relies on chacha20poly1305's `encrypt`: it returns the ciphertext with
/// the 16-byte Poly1305 tag appended, fails only for plaintexts of at least
/// 2^38 bytes, and what it seals, `decrypt` opens again under the same key,
/// nonce and associated data.
#[verifier::external_body]
fn aead_encrypt_raw(key: &[u8], nonce: &[u8], aad: &[u8], plaintext: &[u8]) -> (r: Result<Vec<u8>, CryptoError>)
    requires
        key@.len() == CHACHA20_KEY_SIZE,
        nonce@.len() == CHACHA20_NONCE_SIZE,
    ensures
        r matches Ok(ct) ==> ct@ == aead_seal(key@, nonce@, aad@, plaintext@),
        r matches Ok(ct) ==> ct@.len() == plaintext@.len() + POLY1305_TAG_SIZE,
        r matches Ok(ct) ==> aead_open(key@, nonce@, aad@, ct@) == Some(plaintext@),
        plaintext@.len() <= 0xFFFFFFFF ==> r is Ok,
{
    let cipher = ChaCha20Poly1305::new(Key::from_slice(key));
    let payload = Payload { msg: plaintext, aad };
    match cipher.encrypt(Nonce::from_slice(nonce), payload) {
        Ok(ct) => Ok(ct),
        Err(_) => Err(CryptoError::Encryption),
    }
}

/// Open a ChaCha20-Poly1305 ciphertext.
///
/// Relies on chacha20poly1305's `decrypt`: it succeeds exactly when the
/// appended tag verifies under this key, nonce and associated data, and then
/// returns the plaintext, 16 bytes shorter than the ciphertext.
#[verifier::external_body]
fn aead_decrypt_raw(key: &[u8], nonce: &[u8], aad: &[u8], ciphertext: &[u8]) -> (r: Result<Vec<u8>, CryptoError>)
    requires
        key@.len() == CHACHA20_KEY_SIZE,
        nonce@.len() == CHACHA20_NONCE_SIZE,
    ensures
        r is Ok <==> aead_open(key@, nonce@, aad@, ciphertext@) is Some,
        r matches Ok(pt) ==> pt@ == aead_open(key@, nonce@, aad@, ciphertext@).unwrap(),
        r matches Ok(pt) ==> ciphertext@.len() >= POLY1305_TAG_SIZE && pt@.len()
            + POLY1305_TAG_SIZE == ciphertext@.len(),
        r is Err ==> r->Err_0 == CryptoError::Decryption,
{
    let cipher = ChaCha20Poly1305::new(Key::from_slice(key));
    let payload = Payload { msg: ciphertext, aad };
    match cipher.decrypt(Nonce::from_slice(nonce), payload) {
        Ok(pt) => Ok(pt),
        Err(_) => Err(CryptoError::Decryption),
    }
}

/// Derive 32 bytes with HKDF-SHA256.
///
/// Relies on hkdf's `Hkdf::new` and `expand`; an output of 32 bytes is
/// within HKDF-SHA256's bound of 8160, so `expand` cannot fail here.
#[verifier::external_body]
fn hkdf_sha256_expand32(salt: &[u8], ikm: &[u8], info: &[u8]) -> (r: Vec<u8>)
    ensures
        r@ == hkdf_sha256_32(salt@, ikm@, info@),
        r@.len() == CHACHA20_KEY_SIZE,
{
    let hk = Hkdf::<Sha256>::new(Some(salt), ikm);
    let mut okm = [0u8; 32];
    let _ = hk.expand(info, &mut okm);
    okm.to_vec()
}

/// Compute an HMAC-SHA256 tag.
///
/// Relies on ring's `hmac::sign` with the `HMAC_SHA256` algorithm, whose
/// tag is 32 bytes.
#[verifier::external_body]
pub fn hmac_sha256(key: &[u8], data: &[u8]) -> (r: Vec<u8>)
    ensures
        r@ == hmac_sha256_of(key@, data@),
        r@.len() == 32,
{
    let signing_key = ring::hmac::Key::new(ring::hmac::HMAC_SHA256, key);
    let signature = ring::hmac::sign(&signing_key, data);
    signature.as_ref().to_vec()
}

/// Verify an HMAC-SHA256 tag in constant time.
///
/// Relies on ring's `hmac::verify`: it succeeds exactly when `tag` equals
/// the HMAC of `data` under `key`.
#[verifier::external_body]
pub fn verify_hmac_sha256(key: &[u8], data: &[u8], expected_tag: &[u8]) -> (r: bool)
    ensures
        r == (expected_tag@ == hmac_sha256_of(key@, data@)),
{
    let signing_key = ring::hmac::Key::new(ring::hmac::HMAC_SHA256, key);
    ring::hmac::verify(&signing_key, data, expected_tag).is_ok()
}

/// Derive the X25519 public key of 32 secret bytes.
///
/// Relies on x25519-dalek's `PublicKey::from(&StaticSecret)`: a pure
/// function of the secret bytes.
#[verifier::external_body]
fn x25519_public_key(secret: &[u8]) -> (r: Vec<u8>)
    requires
        secret@.len() == X25519_KEY_SIZE,
    ensures
        r@ == x25519_pub_of(secret@),
        r@.len() == X25519_KEY_SIZE,
{
    let mut sk = [0u8; 32];
    sk.copy_from_slice(secret);
    let secret_key = StaticSecret::from(sk);
    PublicKey::from(&secret_key).to_bytes().to_vec()
}

/// Compute the X25519 shared secret.
///
/// Relies on x25519-dalek's `diffie_hellman`: a pure function of the secret
/// bytes and the peer's public bytes.
#[verifier::external_body]
fn x25519_shared_secret(secret: &[u8], peer_public: &[u8]) -> (r: Vec<u8>)
    requires
        secret@.len() == X25519_KEY_SIZE,
        peer_public@.len() == X25519_KEY_SIZE,
    ensures
        r@ == x25519_dh_of(secret@, peer_public@),
        r@.len() == X25519_KEY_SIZE,
{
    let mut sk = [0u8; 32];
    sk.copy_from_slice(secret);
    let mut pk = [0u8; 32];
    pk.copy_from_slice(peer_public);
    let secret_key = StaticSecret::from(sk);
    let public_key = PublicKey::from(pk);
    secret_key.diffie_hellman(&public_key).to_bytes().to_vec()
}

/// Hash a byte string with BLAKE3.
///
/// Relies on blake3's `hash`, whose digest is 32 bytes.
#[verifier::external_body]
pub fn blake3_hash(data: &[u8]) -> (r: Vec<u8>)
    ensures
        r@ == blake3_of(data@),
        r@.len() == BLAKE3_HASH_SIZE,
{
    blake3::hash(data).as_bytes().to_vec()
}

/// Derive the Ed25519 public key of a 32-byte seed.
///
/// Relies on ed25519-dalek's `SigningKey::from_bytes` and `verifying_key`:
/// a pure function of the seed.
#[verifier::external_body]
fn ed25519_public_key(seed: &[u8]) -> (r: Vec<u8>)
    requires
        seed@.len() == X25519_KEY_SIZE,
    ensures
        r@ == ed25519_pub_of(seed@),
        r@.len() == X25519_KEY_SIZE,
{
    let mut sk = [0u8; 32];
    sk.copy_from_slice(seed);
    let signing_key = ed25519_dalek::SigningKey::from_bytes(&sk);
    signing_key.verifying_key().to_bytes().to_vec()
}

/// Sign a message with Ed25519.
///
/// Relies on ed25519-dalek's `sign`: Ed25519 signing is deterministic, its
/// signature is 64 bytes, and what it signs, `verify` accepts under the
/// seed's public key.
#[verifier::external_body]
fn ed25519_sign(seed: &[u8], message: &[u8]) -> (r: Vec<u8>)
    requires
        seed@.len() == X25519_KEY_SIZE,
    ensures
        r@ == ed25519_sign_of(seed@, message@),
        r@.len() == ED25519_SIGNATURE_SIZE,
        ed25519_verifies(ed25519_pub_of(seed@), message@, r@),
{
    let mut sk = [0u8; 32];
    sk.copy_from_slice(seed);
    let signing_key = ed25519_dalek::SigningKey::from_bytes(&sk);
    signing_key.sign(message).to_bytes().to_vec()
}

/// Verify an Ed25519 signature.
///
/// Relies on ed25519-dalek's `VerifyingKey::from_bytes` and `verify`: a
/// pure function of public key, message and signature; a public key that
/// does not parse verifies nothing.
#[verifier::external_body]
fn ed25519_verify_raw(public_key: &[u8], message: &[u8], signature: &[u8]) -> (r: bool)
    requires
        public_key@.len() == X25519_KEY_SIZE,
        signature@.len() == ED25519_SIGNATURE_SIZE,
    ensures
        r == ed25519_verifies(public_key@, message@, signature@),
{
    let mut pk = [0u8; 32];
    pk.copy_from_slice(public_key);
    let mut sig = [0u8; 64];
    sig.copy_from_slice(signature);
    match ed25519_dalek::VerifyingKey::from_bytes(&pk) {
        Ok(vk) => vk.verify(message, &ed25519_dalek::Signature::from_bytes(&sig)).is_ok(),
        Err(_) => false,
    }
}

/// A 32-byte symmetric session key.
pub struct SessionKey {
    bytes: Vec<u8>,
}

impl Clone for SessionKey {
    /// A clone carries the same key bytes.
    fn clone(&self) -> (r: Self)
        ensures
            r@ == self@,
    {
        SessionKey { bytes: self.bytes.clone() }
    }
}

impl View for SessionKey {
    type V = Seq<u8>;

    closed spec fn view(&self) -> Seq<u8> {
        self.bytes@
    }
}

impl SessionKey {
    /// Copy a key out of 32 bytes.
    pub fn from_bytes(bytes: &[u8]) -> (r: SessionKey)
        requires
            bytes@.len() == CHACHA20_KEY_SIZE,
        ensures
            r@ == bytes@,
    {
        SessionKey { bytes: vstd::slice::slice_to_vec(bytes) }
    }

    /// The key's bytes.
    pub fn as_bytes(&self) -> (r: &[u8])
        ensures
            r@ == self@,
    {
        self.bytes.as_slice()
    }

    /// A fresh random key.
    pub fn random() -> (r: SessionKey)
        ensures
            r@.len() == CHACHA20_KEY_SIZE,
    {
        SessionKey { bytes: random_bytes(CHACHA20_KEY_SIZE) }
    }
}

/// A shared secret from an X25519 exchange.
pub struct SharedSecret {
    bytes: Vec<u8>,
}

impl View for SharedSecret {
    type V = Seq<u8>;

    closed spec fn view(&self) -> Seq<u8> {
        self.bytes@
    }
}

impl SharedSecret {
    /// The secret's bytes.
    pub fn as_bytes(&self) -> (r: &[u8])
        ensures
            r@ == self@,
    {
        self.bytes.as_slice()
    }

    /// Derive a session key: `HKDF-SHA256(salt, secret, info)`, 32 bytes.
    pub fn derive_session_key(&self, salt: &[u8], info: &[u8]) -> (r: Result<SessionKey, LlpError>)
        ensures
            r matches Ok(k) ==> k@ == hkdf_sha256_32(salt@, self@, info@) && k@.len()
                == CHACHA20_KEY_SIZE,
            r is Ok,
    {
        let okm = hkdf_sha256_expand32(salt, self.bytes.as_slice(), info);
        Ok(SessionKey::from_bytes(okm.as_slice()))
    }
}

/// An X25519 key pair; the public half is always derived from the secret.
pub struct X25519Key {
    secret: Vec<u8>,
    public: Vec<u8>,
}

impl Clone for X25519Key {
    /// A clone carries the same key pair.
    fn clone(&self) -> (r: Self)
        ensures
            r.spec_secret() == self.spec_secret(),
            r.spec_public() == self.spec_public(),
    {
        X25519Key { secret: self.secret.clone(), public: self.public.clone() }
    }
}

impl X25519Key {
    /// The secret bytes, for contracts.
    pub closed spec fn spec_secret(&self) -> Seq<u8> {
        self.secret@
    }

    /// The public bytes, for contracts.
    pub closed spec fn spec_public(&self) -> Seq<u8> {
        self.public@
    }

    /// A key pair whose public half matches its secret half.
    pub open spec fn wf(&self) -> bool {
        &&& self.spec_secret().len() == X25519_KEY_SIZE
        &&& self.spec_public().len() == X25519_KEY_SIZE
        &&& self.spec_public() == x25519_pub_of(self.spec_secret())
    }

    /// Generate a fresh key pair from the system's randomness.
    pub fn generate() -> (r: X25519Key)
        ensures
            r.wf(),
    {
        let secret = random_bytes(X25519_KEY_SIZE);
        let public = x25519_public_key(secret.as_slice());
        X25519Key { secret, public }
    }

    /// Rebuild a key pair from 32 secret bytes; any other length is an
    /// `InvalidKeySize` error.
    pub fn from_bytes(bytes: &[u8]) -> (r: Result<X25519Key, LlpError>)
        ensures
            bytes@.len() == X25519_KEY_SIZE <==> r is Ok,
            r matches Ok(k) ==> k.wf() && k.spec_secret() == bytes@,
            bytes@.len() != X25519_KEY_SIZE ==> r == Err::<X25519Key, _>(
                LlpError::CryptoError(
                    CryptoError::InvalidKeySize {
                        expected: X25519_KEY_SIZE,
                        actual: bytes@.len() as usize,
                    },
                ),
            ),
    {
        if bytes.len() != X25519_KEY_SIZE {
            return Err(
                LlpError::CryptoError(
                    CryptoError::InvalidKeySize { expected: X25519_KEY_SIZE, actual: bytes.len() },
                ),
            );
        }
        let secret = vstd::slice::slice_to_vec(bytes);
        let public = x25519_public_key(secret.as_slice());
        Ok(X25519Key { secret, public })
    }

    /// A copy of the public key's bytes.
    pub fn public_bytes(&self) -> (r: Vec<u8>)
        ensures
            r@ == self.spec_public(),
    {
        self.public.clone()
    }

    /// The X25519 exchange with a peer's public key.
    pub fn diffie_hellman(&self, their_public: &[u8]) -> (r: SharedSecret)
        requires
            self.wf(),
            their_public@.len() == X25519_KEY_SIZE,
        ensures
            r@ == x25519_dh_of(self.spec_secret(), their_public@),
            r@.len() == X25519_KEY_SIZE,
    {
        SharedSecret { bytes: x25519_shared_secret(self.secret.as_slice(), their_public) }
    }
}

/// The 12 nonce bytes of a counter and a truncated session id:
/// `counter (8 bytes LE) || session_id (4 bytes LE)`.
pub open spec fn spec_nonce_bytes(counter: u64, session_id: u32) -> Seq<u8> {
    u64_le(counter) + u32_le(session_id)
}

/// The deterministic ChaCha20 nonce of a session: a packet counter bound to
/// the low 32 bits of the session id.
#[derive(Clone, Copy, Debug, PartialEq, Eq, Structural)]
pub struct ChaCha20Nonce {
    /// The packet counter.
    pub counter: u64,
    /// The low 32 bits of the session id.
    pub session_id: u32,
}

impl ChaCha20Nonce {
    /// A nonce for a session and counter; the session id keeps its low
    /// 32 bits.
    pub fn new(session_id: u64, counter: u64) -> (r: ChaCha20Nonce)
        ensures
            r.counter == counter,
            r.session_id == session_id & 0xFFFFFFFF,
    {
        proof {
            assert(session_id & 0xFFFFFFFF <= 0xFFFFFFFF) by (bit_vector);
        }
        ChaCha20Nonce { counter, session_id: (session_id & 0xFFFFFFFF) as u32 }
    }

    /// The nonce's 12 bytes.
    pub fn as_bytes(&self) -> (r: Vec<u8>)
        ensures
            r@ == spec_nonce_bytes(self.counter, self.session_id),
            r@.len() == CHACHA20_NONCE_SIZE,
    {
        let mut bytes: Vec<u8> = Vec::new();
        crate::endian::push_u64_le(&mut bytes, self.counter);
        crate::endian::push_u32_le(&mut bytes, self.session_id);
        assert(bytes@ =~= spec_nonce_bytes(self.counter, self.session_id));
        bytes
    }

    /// Step the counter; at its maximum the nonce is exhausted and the call
    /// fails with `NonceOverflow`, leaving the nonce unchanged.
    pub fn increment(&mut self) -> (r: Result<(), LlpError>)
        ensures
            old(self).counter < u64::MAX ==> r is Ok && final(self).counter == old(self).counter
                + 1 && final(self).session_id == old(self).session_id,
            old(self).counter == u64::MAX ==> r == Err::<(), _>(
                LlpError::CryptoError(CryptoError::NonceOverflow),
            ) && *final(self) == *old(self),
    {
        if self.counter == u64::MAX {
            return Err(LlpError::CryptoError(CryptoError::NonceOverflow));
        }
        self.counter = self.counter + 1;
        Ok(())
    }

    /// The current counter.
    pub fn counter(&self) -> (r: u64)
        ensures
            r == self.counter,
    {
        self.counter
    }
}

/// A ChaCha20-Poly1305 cipher bound to one session: a key, the session id,
/// and the counter its own encryptions consume.
pub struct AeadCipher {
    key: SessionKey,
    nonce: ChaCha20Nonce,
}

impl AeadCipher {
    /// The key bytes, for contracts.
    pub closed spec fn spec_key(&self) -> Seq<u8> {
        self.key@
    }

    /// The cipher's nonce state, for contracts.
    pub closed spec fn spec_nonce(&self) -> ChaCha20Nonce {
        self.nonce
    }

    /// A cipher with a proper key.
    pub open spec fn wf(&self) -> bool {
        self.spec_key().len() == CHACHA20_KEY_SIZE
    }

    /// A cipher for a session, its counter starting at zero.
    pub fn new(key: &SessionKey, session_id: u64) -> (r: AeadCipher)
        requires
            key@.len() == CHACHA20_KEY_SIZE,
        ensures
            r.wf(),
            r.spec_key() == key@,
            r.spec_nonce().counter == 0,
            r.spec_nonce().session_id == session_id & 0xFFFFFFFF,
    {
        AeadCipher { key: key.clone(), nonce: ChaCha20Nonce::new(session_id, 0) }
    }

    /// Seal a plaintext under the current nonce, then step the counter.
    ///
    /// Succeeds for every plaintext a packet can carry while the counter has
    /// room; what it returns is the AEAD of the plaintext under this key and
    /// the nonce `(counter, session_id)`, and opens back to the plaintext.
    pub fn encrypt(&mut self, plaintext: &[u8], aad: &[u8]) -> (r: Result<Vec<u8>, LlpError>)
        requires
            old(self).wf(),
        ensures
            final(self).wf(),
            final(self).spec_key() == old(self).spec_key(),
            final(self).spec_nonce().session_id == old(self).spec_nonce().session_id,
            r is Err ==> *final(self) == *old(self),
            r matches Ok(ct) ==> {
                &&& final(self).spec_nonce().counter == old(self).spec_nonce().counter + 1
                &&& ct@ == aead_seal(
                    old(self).spec_key(),
                    spec_nonce_bytes(
                        old(self).spec_nonce().counter,
                        old(self).spec_nonce().session_id,
                    ),
                    aad@,
                    plaintext@,
                )
                &&& ct@.len() == plaintext@.len() + POLY1305_TAG_SIZE
                &&& aead_open(
                    old(self).spec_key(),
                    spec_nonce_bytes(
                        old(self).spec_nonce().counter,
                        old(self).spec_nonce().session_id,
                    ),
                    aad@,
                    ct@,
                ) == Some(plaintext@)
            },
            plaintext@.len() <= 0xFFFFFFFF && old(self).spec_nonce().counter < u64::MAX ==> r
                is Ok,
    {
        let nonce_bytes = self.nonce.as_bytes();
        if self.nonce.counter == u64::MAX {
            return Err(LlpError::CryptoError(CryptoError::NonceOverflow));
        }
        let ct = match aead_encrypt_raw(
            self.key.as_bytes(),
            nonce_bytes.as_slice(),
            aad,
            plaintext,
        ) {
            Ok(ct) => ct,
            Err(e) => {
                return Err(LlpError::CryptoError(e));
            },
        };
        let _ = self.nonce.increment();
        Ok(ct)
    }

    /// Open a ciphertext received with the given counter; the nonce is
    /// rebuilt from the counter and this cipher's session id.
    ///
    /// Succeeds exactly when the tag verifies; any failure is `Decryption`.
    pub fn decrypt(&self, ciphertext: &[u8], aad: &[u8], nonce_counter: u64) -> (r: Result<Vec<u8>, LlpError>)
        requires
            self.wf(),
        ensures
            r is Ok <==> aead_open(
                self.spec_key(),
                spec_nonce_bytes(nonce_counter, self.spec_nonce().session_id),
                aad@,
                ciphertext@,
            ) is Some,
            r matches Ok(pt) ==> pt@ == aead_open(
                self.spec_key(),
                spec_nonce_bytes(nonce_counter, self.spec_nonce().session_id),
                aad@,
                ciphertext@,
            ).unwrap(),
            r matches Ok(pt) ==> ciphertext@.len() >= POLY1305_TAG_SIZE && pt@.len()
                + POLY1305_TAG_SIZE == ciphertext@.len(),
            r is Err ==> r == Err::<Vec<u8>, _>(LlpError::CryptoError(CryptoError::Decryption)),
    {
        let nonce = ChaCha20Nonce { counter: nonce_counter, session_id: self.nonce.session_id };
        let nonce_bytes = nonce.as_bytes();
        match aead_decrypt_raw(self.key.as_bytes(), nonce_bytes.as_slice(), aad, ciphertext) {
            Ok(pt) => Ok(pt),
            Err(e) => Err(LlpError::CryptoError(e)),
        }
    }

    /// The counter the next encryption will use.
    pub fn nonce_counter(&self) -> (r: u64)
        ensures
            r == self.spec_nonce().counter,
    {
        self.nonce.counter()
    }
}

/// An Ed25519 signing key, held as its 32-byte seed.
pub struct Ed25519SigningKey {
    seed: Vec<u8>,
}

impl Ed25519SigningKey {
    /// The seed bytes, for contracts.
    pub closed spec fn spec_seed(&self) -> Seq<u8> {
        self.seed@
    }

    /// A key whose seed has the proper size.
    pub open spec fn wf(&self) -> bool {
        self.spec_seed().len() == X25519_KEY_SIZE
    }

    /// Generate a fresh signing key from the system's randomness.
    pub fn generate() -> (r: Ed25519SigningKey)
        ensures
            r.wf(),
    {
        Ed25519SigningKey { seed: random_bytes(X25519_KEY_SIZE) }
    }

    /// The 32-byte public verification key.
    pub fn verifying_key(&self) -> (r: Vec<u8>)
        requires
            self.wf(),
        ensures
            r@ == ed25519_pub_of(self.spec_seed()),
            r@.len() == X25519_KEY_SIZE,
    {
        ed25519_public_key(self.seed.as_slice())
    }

    /// Sign a message; the signature verifies under this key's public half.
    pub fn sign(&self, message: &[u8]) -> (r: Result<Vec<u8>, LlpError>)
        requires
            self.wf(),
        ensures
            r matches Ok(sig) ==> {
                &&& sig@ == ed25519_sign_of(self.spec_seed(), message@)
                &&& sig@.len() == ED25519_SIGNATURE_SIZE
                &&& ed25519_verifies(ed25519_pub_of(self.spec_seed()), message@, sig@)
            },
            r is Ok,
    {
        Ok(ed25519_sign(self.seed.as_slice(), message))
    }
}

/// Verify an Ed25519 signature over a message; a signature of the wrong
/// size fails with `InvalidAuthTagSize`, a bad signature with
/// `SignatureVerification`.
pub fn verify_ed25519_signature(public_key: &[u8], message: &[u8], signature: &[u8]) -> (r: Result<(), LlpError>)
    requires
        public_key@.len() == X25519_KEY_SIZE,
    ensures
        signature@.len() != ED25519_SIGNATURE_SIZE ==> r == Err::<(), _>(
            LlpError::CryptoError(
                CryptoError::InvalidAuthTagSize {
                    expected: ED25519_SIGNATURE_SIZE,
                    actual: signature@.len() as usize,
                },
            ),
        ),
        signature@.len() == ED25519_SIGNATURE_SIZE ==> (r is Ok <==> ed25519_verifies(
            public_key@,
            message@,
            signature@,
        )),
        signature@.len() == ED25519_SIGNATURE_SIZE && !ed25519_verifies(
            public_key@,
            message@,
            signature@,
        ) ==> r == Err::<(), _>(LlpError::CryptoError(CryptoError::SignatureVerification)),
{
    if signature.len() != ED25519_SIGNATURE_SIZE {
        return Err(
            LlpError::CryptoError(
                CryptoError::InvalidAuthTagSize {
                    expected: ED25519_SIGNATURE_SIZE,
                    actual: signature.len(),
                },
            ),
        );
    }
    if ed25519_verify_raw(public_key, message, signature) {
        Ok(())
    } else {
        Err(LlpError::CryptoError(CryptoError::SignatureVerification))
    }
}

} // verus!
