//! The four-message handshake.
//!
//! ```text
//! 1. ClientHello   type 1: client_public_key(32) || client_random(32) || mimicry_profile(2)
//! 2. ServerHello   type 2: server_public_key(32) || server_random(32) || session_id(8)
//! 3. ClientVerify  type 3: hmac_tag(32)
//! 4. ServerVerify  type 4: hmac_tag(32)
//! ```
//!
//! After the two Hellos each side computes `shared = X25519(own_secret,
//! peer_public)` and `session_key = HKDF-SHA256(client_random ||
//! server_random, shared, "llp-session-key-v1")`. Both verify tags are
//! `HMAC-SHA256(session_key, ClientHello bytes || ServerHello bytes)`.

use vstd::prelude::*;
use vstd::slice::{slice_subrange, slice_to_vec};

use crate::crypto::{
    hmac_sha256, hmac_sha256_of, hkdf_sha256_32, verify_hmac_sha256, x25519_dh_of, SessionKey,
    X25519Key, RANDOM_SIZE, X25519_KEY_SIZE,
};
use crate::endian::{read_u16_be, read_u64_be, push_u16_be, push_u64_be, u16_be, u16_of_be, u64_be, u64_of_be};
use crate::errors::{HandshakeError, LlpError};
use crate::packet::{spec_profile_from_u16, spec_profile_to_u16, MimicryProfile};

verus! {

/// Size of an HMAC-SHA256 confirmation tag.
pub const HMAC_TAG_SIZE: usize = 32;

/// Size of a serialized ClientHello.
pub const CLIENT_HELLO_SIZE: usize = 1 + X25519_KEY_SIZE + RANDOM_SIZE + 2;

/// Size of a serialized ServerHello.
pub const SERVER_HELLO_SIZE: usize = 1 + X25519_KEY_SIZE + RANDOM_SIZE + 8;

/// Size of a serialized verify message.
pub const VERIFY_SIZE: usize = 1 + HMAC_TAG_SIZE;

/// The HKDF context string for session-key derivation:
/// the bytes of `llp-session-key-v1`.
pub open spec fn spec_hkdf_info() -> Seq<u8> {
    seq![
        0x6cu8, 0x6cu8, 0x70u8, 0x2du8, 0x73u8, 0x65u8, 0x73u8, 0x73u8, 0x69u8, 0x6fu8, 0x6eu8,
        0x2du8, 0x6bu8, 0x65u8, 0x79u8, 0x2du8, 0x76u8, 0x31u8,
    ]
}

/// The HKDF context string, as bytes.
pub fn hkdf_info() -> (r: Vec<u8>)
    ensures
        r@ == spec_hkdf_info(),
{
    let mut v: Vec<u8> = Vec::new();
    v.push(0x6c);
    v.push(0x6c);
    v.push(0x70);
    v.push(0x2d);
    v.push(0x73);
    v.push(0x65);
    v.push(0x73);
    v.push(0x73);
    v.push(0x69);
    v.push(0x6f);
    v.push(0x6e);
    v.push(0x2d);
    v.push(0x6b);
    v.push(0x65);
    v.push(0x79);
    v.push(0x2d);
    v.push(0x76);
    v.push(0x31);
    assert(v@ =~= spec_hkdf_info());
    v
}

/// The type tag of each handshake message.
#[derive(Clone, Copy, Debug, PartialEq, Eq, Structural)]
pub enum HandshakeMessageType {
    /// The initiator's opening message.
    ClientHello,
    /// The responder's reply.
    ServerHello,
    /// The initiator's confirmation tag.
    ClientVerify,
    /// The responder's confirmation tag.
    ServerVerify,
}

/// The wire tag of a message type.
pub open spec fn spec_msg_type_to_u8(t: HandshakeMessageType) -> u8 {
    match t {
        HandshakeMessageType::ClientHello => 1,
        HandshakeMessageType::ServerHello => 2,
        HandshakeMessageType::ClientVerify => 3,
        HandshakeMessageType::ServerVerify => 4,
    }
}

impl HandshakeMessageType {
    /// The message type a wire tag denotes, if any.
    pub fn from_u8(value: u8) -> (r: Option<HandshakeMessageType>)
        ensures
            value == 1 ==> r == Some(HandshakeMessageType::ClientHello),
            value == 2 ==> r == Some(HandshakeMessageType::ServerHello),
            value == 3 ==> r == Some(HandshakeMessageType::ClientVerify),
            value == 4 ==> r == Some(HandshakeMessageType::ServerVerify),
            value == 0 || value > 4 ==> r is None,
    {
        match value {
            1u8 => Some(HandshakeMessageType::ClientHello),
            2u8 => Some(HandshakeMessageType::ServerHello),
            3u8 => Some(HandshakeMessageType::ClientVerify),
            4u8 => Some(HandshakeMessageType::ServerVerify),
            _ => None,
        }
    }

    /// This message type's wire tag.
    pub fn to_u8(self) -> (r: u8)
        ensures
            r == spec_msg_type_to_u8(self),
    {
        match self {
            HandshakeMessageType::ClientHello => 1,
            HandshakeMessageType::ServerHello => 2,
            HandshakeMessageType::ClientVerify => 3,
            HandshakeMessageType::ServerVerify => 4,
        }
    }
}

/// The initiator's opening message.
#[derive(Clone, Debug)]
pub struct ClientHello {
    /// The initiator's ephemeral X25519 public key.
    pub client_public_key: Vec<u8>,
    /// The initiator's random contribution to the key derivation salt.
    pub client_random: Vec<u8>,
    /// The mimicry profile the initiator asks for.
    pub mimicry_profile: MimicryProfile,
}

/// A ClientHello whose byte fields have their wire sizes.
pub open spec fn client_hello_wf(m: ClientHello) -> bool {
    &&& m.client_public_key@.len() == X25519_KEY_SIZE
    &&& m.client_random@.len() == RANDOM_SIZE
}

/// The bytes a ClientHello serializes to.
pub open spec fn spec_client_hello_bytes(m: ClientHello) -> Seq<u8> {
    seq![1u8] + m.client_public_key@ + m.client_random@ + u16_be(
        spec_profile_to_u16(m.mimicry_profile),
    )
}

impl ClientHello {
    /// Build the message from an ephemeral key and a random contribution.
    pub fn new(client_key: &X25519Key, client_random: &[u8], mimicry_profile: MimicryProfile) -> (r:
        ClientHello)
        requires
            client_key.wf(),
            client_random@.len() == RANDOM_SIZE,
        ensures
            client_hello_wf(r),
            r.client_public_key@ == client_key.spec_public(),
            r.client_random@ == client_random@,
            r.mimicry_profile == mimicry_profile,
    {
        ClientHello {
            client_public_key: client_key.public_bytes(),
            client_random: slice_to_vec(client_random),
            mimicry_profile,
        }
    }

    /// Serialize to the wire: `1 || public_key || random || profile`.
    pub fn serialize(&self) -> (r: Vec<u8>)
        requires
            client_hello_wf(*self),
        ensures
            r@ == spec_client_hello_bytes(*self),
            r@.len() == CLIENT_HELLO_SIZE,
    {
        let mut buf: Vec<u8> = Vec::new();
        buf.push(1);
        buf.extend_from_slice(self.client_public_key.as_slice());
        buf.extend_from_slice(self.client_random.as_slice());
        push_u16_be(&mut buf, self.mimicry_profile.to_u16());
        assert(buf@ =~= spec_client_hello_bytes(*self));
        buf
    }

    /// Parse a ClientHello: too short is `InvalidMessageFormat`, a wrong
    /// type tag `UnexpectedMessage`, an unknown profile
    /// `UnsupportedMimicryProfile`; extra bytes beyond the message are
    /// ignored.
    pub fn deserialize(data: &[u8]) -> (r: Result<ClientHello, LlpError>)
        ensures
            data@.len() < CLIENT_HELLO_SIZE ==> r == Err::<ClientHello, _>(
                LlpError::HandshakeError(HandshakeError::InvalidMessageFormat),
            ),
            data@.len() >= CLIENT_HELLO_SIZE && data@[0] != 1 ==> r == Err::<ClientHello, _>(
                LlpError::HandshakeError(
                    HandshakeError::UnexpectedMessage { expected: 1, actual: data@[0] },
                ),
            ),
            data@.len() >= CLIENT_HELLO_SIZE && data@[0] == 1 && spec_profile_from_u16(
                u16_of_be(data@[65], data@[66]),
            ) is None ==> r == Err::<ClientHello, _>(
                LlpError::HandshakeError(
                    HandshakeError::UnsupportedMimicryProfile(u16_of_be(data@[65], data@[66])),
                ),
            ),
            data@.len() >= CLIENT_HELLO_SIZE && data@[0] == 1 && spec_profile_from_u16(
                u16_of_be(data@[65], data@[66]),
            ) is Some ==> (r matches Ok(m) && {
                &&& client_hello_wf(m)
                &&& m.client_public_key@ == data@.subrange(1, 33)
                &&& m.client_random@ == data@.subrange(33, 65)
                &&& Some(m.mimicry_profile) == spec_profile_from_u16(
                    u16_of_be(data@[65], data@[66]),
                )
            }),
    {
        if data.len() < CLIENT_HELLO_SIZE {
            return Err(LlpError::HandshakeError(HandshakeError::InvalidMessageFormat));
        }
        let msg_type = data[0];
        if msg_type != 1 {
            return Err(
                LlpError::HandshakeError(
                    HandshakeError::UnexpectedMessage { expected: 1, actual: msg_type },
                ),
            );
        }
        let profile_id = read_u16_be(data, 65);
        let mimicry_profile = match MimicryProfile::from_u16(profile_id) {
            Some(p) => p,
            None => {
                return Err(
                    LlpError::HandshakeError(HandshakeError::UnsupportedMimicryProfile(profile_id)),
                );
            },
        };
        let client_public_key = slice_to_vec(slice_subrange(data, 1, 33));
        let client_random = slice_to_vec(slice_subrange(data, 33, 65));
        Ok(ClientHello { client_public_key, client_random, mimicry_profile })
    }
}

/// The responder's reply.
#[derive(Clone, Debug)]
pub struct ServerHello {
    /// The responder's ephemeral X25519 public key.
    pub server_public_key: Vec<u8>,
    /// The responder's random contribution to the key derivation salt.
    pub server_random: Vec<u8>,
    /// The session id the responder chose.
    pub session_id: u64,
}

/// A ServerHello whose byte fields have their wire sizes.
pub open spec fn server_hello_wf(m: ServerHello) -> bool {
    &&& m.server_public_key@.len() == X25519_KEY_SIZE
    &&& m.server_random@.len() == RANDOM_SIZE
}

/// The bytes a ServerHello serializes to.
pub open spec fn spec_server_hello_bytes(m: ServerHello) -> Seq<u8> {
    seq![2u8] + m.server_public_key@ + m.server_random@ + u64_be(m.session_id)
}

impl ServerHello {
    /// Build the message from an ephemeral key, a random contribution and
    /// the chosen session id.
    pub fn new(server_key: &X25519Key, server_random: &[u8], session_id: u64) -> (r: ServerHello)
        requires
            server_key.wf(),
            server_random@.len() == RANDOM_SIZE,
        ensures
            server_hello_wf(r),
            r.server_public_key@ == server_key.spec_public(),
            r.server_random@ == server_random@,
            r.session_id == session_id,
    {
        ServerHello {
            server_public_key: server_key.public_bytes(),
            server_random: slice_to_vec(server_random),
            session_id,
        }
    }

    /// Serialize to the wire: `2 || public_key || random || session_id`.
    pub fn serialize(&self) -> (r: Vec<u8>)
        requires
            server_hello_wf(*self),
        ensures
            r@ == spec_server_hello_bytes(*self),
            r@.len() == SERVER_HELLO_SIZE,
    {
        let mut buf: Vec<u8> = Vec::new();
        buf.push(2);
        buf.extend_from_slice(self.server_public_key.as_slice());
        buf.extend_from_slice(self.server_random.as_slice());
        push_u64_be(&mut buf, self.session_id);
        assert(buf@ =~= spec_server_hello_bytes(*self));
        buf
    }

    /// Parse a ServerHello: too short is `InvalidMessageFormat`, a wrong
    /// type tag `UnexpectedMessage`; extra bytes beyond the message are
    /// ignored.
    pub fn deserialize(data: &[u8]) -> (r: Result<ServerHello, LlpError>)
        ensures
            data@.len() < SERVER_HELLO_SIZE ==> r == Err::<ServerHello, _>(
                LlpError::HandshakeError(HandshakeError::InvalidMessageFormat),
            ),
            data@.len() >= SERVER_HELLO_SIZE && data@[0] != 2 ==> r == Err::<ServerHello, _>(
                LlpError::HandshakeError(
                    HandshakeError::UnexpectedMessage { expected: 2, actual: data@[0] },
                ),
            ),
            data@.len() >= SERVER_HELLO_SIZE && data@[0] == 2 ==> (r matches Ok(m) && {
                &&& server_hello_wf(m)
                &&& m.server_public_key@ == data@.subrange(1, 33)
                &&& m.server_random@ == data@.subrange(33, 65)
                &&& m.session_id == u64_of_be(
                    data@[65],
                    data@[66],
                    data@[67],
                    data@[68],
                    data@[69],
                    data@[70],
                    data@[71],
                    data@[72],
                )
            }),
    {
        if data.len() < SERVER_HELLO_SIZE {
            return Err(LlpError::HandshakeError(HandshakeError::InvalidMessageFormat));
        }
        let msg_type = data[0];
        if msg_type != 2 {
            return Err(
                LlpError::HandshakeError(
                    HandshakeError::UnexpectedMessage { expected: 2, actual: msg_type },
                ),
            );
        }
        let server_public_key = slice_to_vec(slice_subrange(data, 1, 33));
        let server_random = slice_to_vec(slice_subrange(data, 33, 65));
        let session_id = read_u64_be(data, 65);
        Ok(ServerHello { server_public_key, server_random, session_id })
    }
}

/// The initiator's confirmation: an HMAC over the transcript.
#[derive(Clone, Debug)]
pub struct ClientVerify {
    /// `HMAC-SHA256(session_key, transcript)`.
    pub hmac_tag: Vec<u8>,
}

/// The bytes a verify message with this tag serializes to.
pub open spec fn spec_verify_bytes(tag_byte: u8, tag: Seq<u8>) -> Seq<u8> {
    seq![tag_byte] + tag
}

impl ClientVerify {
    /// Compute the confirmation tag over a transcript.
    pub fn new(session_key: &SessionKey, transcript: &[u8]) -> (r: ClientVerify)
        ensures
            r.hmac_tag@ == hmac_sha256_of(session_key@, transcript@),
            r.hmac_tag@.len() == HMAC_TAG_SIZE,
    {
        ClientVerify { hmac_tag: hmac_sha256(session_key.as_bytes(), transcript) }
    }

    /// Serialize to the wire: `3 || hmac_tag`.
    pub fn serialize(&self) -> (r: Vec<u8>)
        requires
            self.hmac_tag@.len() == HMAC_TAG_SIZE,
        ensures
            r@ == spec_verify_bytes(3, self.hmac_tag@),
            r@.len() == VERIFY_SIZE,
    {
        let mut buf: Vec<u8> = Vec::new();
        buf.push(3);
        buf.extend_from_slice(self.hmac_tag.as_slice());
        assert(buf@ =~= spec_verify_bytes(3, self.hmac_tag@));
        buf
    }

    /// Parse a ClientVerify; extra bytes beyond the message are ignored.
    pub fn deserialize(data: &[u8]) -> (r: Result<ClientVerify, LlpError>)
        ensures
            data@.len() < VERIFY_SIZE ==> r == Err::<ClientVerify, _>(
                LlpError::HandshakeError(HandshakeError::InvalidMessageFormat),
            ),
            data@.len() >= VERIFY_SIZE && data@[0] != 3 ==> r == Err::<ClientVerify, _>(
                LlpError::HandshakeError(
                    HandshakeError::UnexpectedMessage { expected: 3, actual: data@[0] },
                ),
            ),
            data@.len() >= VERIFY_SIZE && data@[0] == 3 ==> (r matches Ok(m) && m.hmac_tag@
                == data@.subrange(1, 33)),
    {
        if data.len() < VERIFY_SIZE {
            return Err(LlpError::HandshakeError(HandshakeError::InvalidMessageFormat));
        }
        let msg_type = data[0];
        if msg_type != 3 {
            return Err(
                LlpError::HandshakeError(
                    HandshakeError::UnexpectedMessage { expected: 3, actual: msg_type },
                ),
            );
        }
        Ok(ClientVerify { hmac_tag: slice_to_vec(slice_subrange(data, 1, 33)) })
    }

    /// Check the tag against a transcript: `Ok` exactly when the tag is the
    /// transcript's HMAC under the session key.
    pub fn verify(&self, session_key: &SessionKey, transcript: &[u8]) -> (r: Result<(), LlpError>)
        ensures
            r is Ok <==> self.hmac_tag@ == hmac_sha256_of(session_key@, transcript@),
            r is Err ==> r == Err::<(), _>(
                LlpError::HandshakeError(HandshakeError::VerificationFailed),
            ),
    {
        if verify_hmac_sha256(session_key.as_bytes(), transcript, self.hmac_tag.as_slice()) {
            Ok(())
        } else {
            Err(LlpError::HandshakeError(HandshakeError::VerificationFailed))
        }
    }
}

/// The responder's confirmation: an HMAC over the transcript.
#[derive(Clone, Debug)]
pub struct ServerVerify {
    /// `HMAC-SHA256(session_key, transcript)`.
    pub hmac_tag: Vec<u8>,
}

impl ServerVerify {
    /// Compute the confirmation tag over a transcript.
    pub fn new(session_key: &SessionKey, transcript: &[u8]) -> (r: ServerVerify)
        ensures
            r.hmac_tag@ == hmac_sha256_of(session_key@, transcript@),
            r.hmac_tag@.len() == HMAC_TAG_SIZE,
    {
        ServerVerify { hmac_tag: hmac_sha256(session_key.as_bytes(), transcript) }
    }

    /// Serialize to the wire: `4 || hmac_tag`.
    pub fn serialize(&self) -> (r: Vec<u8>)
        requires
            self.hmac_tag@.len() == HMAC_TAG_SIZE,
        ensures
            r@ == spec_verify_bytes(4, self.hmac_tag@),
            r@.len() == VERIFY_SIZE,
    {
        let mut buf: Vec<u8> = Vec::new();
        buf.push(4);
        buf.extend_from_slice(self.hmac_tag.as_slice());
        assert(buf@ =~= spec_verify_bytes(4, self.hmac_tag@));
        buf
    }

    /// Parse a ServerVerify; extra bytes beyond the message are ignored.
    pub fn deserialize(data: &[u8]) -> (r: Result<ServerVerify, LlpError>)
        ensures
            data@.len() < VERIFY_SIZE ==> r == Err::<ServerVerify, _>(
                LlpError::HandshakeError(HandshakeError::InvalidMessageFormat),
            ),
            data@.len() >= VERIFY_SIZE && data@[0] != 4 ==> r == Err::<ServerVerify, _>(
                LlpError::HandshakeError(
                    HandshakeError::UnexpectedMessage { expected: 4, actual: data@[0] },
                ),
            ),
            data@.len() >= VERIFY_SIZE && data@[0] == 4 ==> (r matches Ok(m) && m.hmac_tag@
                == data@.subrange(1, 33)),
    {
        if data.len() < VERIFY_SIZE {
            return Err(LlpError::HandshakeError(HandshakeError::InvalidMessageFormat));
        }
        let msg_type = data[0];
        if msg_type != 4 {
            return Err(
                LlpError::HandshakeError(
                    HandshakeError::UnexpectedMessage { expected: 4, actual: msg_type },
                ),
            );
        }
        Ok(ServerVerify { hmac_tag: slice_to_vec(slice_subrange(data, 1, 33)) })
    }

    /// Check the tag against a transcript: `Ok` exactly when the tag is the
    /// transcript's HMAC under the session key.
    pub fn verify(&self, session_key: &SessionKey, transcript: &[u8]) -> (r: Result<(), LlpError>)
        ensures
            r is Ok <==> self.hmac_tag@ == hmac_sha256_of(session_key@, transcript@),
            r is Err ==> r == Err::<(), _>(
                LlpError::HandshakeError(HandshakeError::VerificationFailed),
            ),
    {
        if verify_hmac_sha256(session_key.as_bytes(), transcript, self.hmac_tag.as_slice()) {
            Ok(())
        } else {
            Err(LlpError::HandshakeError(HandshakeError::VerificationFailed))
        }
    }
}

/// The transcript both confirmation tags are computed over: the serialized
/// ClientHello followed by the serialized ServerHello.
pub open spec fn spec_transcript(ch: ClientHello, sh: ServerHello) -> Seq<u8> {
    spec_client_hello_bytes(ch) + spec_server_hello_bytes(sh)
}

/// Compute the transcript bytes of two stored hello messages.
fn build_transcript(ch: &ClientHello, sh: &ServerHello) -> (r: Vec<u8>)
    requires
        client_hello_wf(*ch),
        server_hello_wf(*sh),
    ensures
        r@ == spec_transcript(*ch, *sh),
{
    let mut transcript = ch.serialize();
    let sh_bytes = sh.serialize();
    transcript.extend_from_slice(sh_bytes.as_slice());
    transcript
}

/// The session key both sides derive once the Hellos are exchanged:
/// `HKDF-SHA256(client_random || server_random, X25519(secret, peer_public),
/// "llp-session-key-v1")`.
pub open spec fn spec_session_key_of(
    secret: Seq<u8>,
    peer_public: Seq<u8>,
    ch: ClientHello,
    sh: ServerHello,
) -> Seq<u8> {
    hkdf_sha256_32(
        ch.client_random@ + sh.server_random@,
        x25519_dh_of(secret, peer_public),
        spec_hkdf_info(),
    )
}

/// Derive the session key from a shared salt and an X25519 exchange.
fn derive_session_key(own_key: &X25519Key, peer_public: &[u8], ch: &ClientHello, sh: &ServerHello)
    -> (r: SessionKey)
    requires
        own_key.wf(),
        peer_public@.len() == X25519_KEY_SIZE,
        client_hello_wf(*ch),
        server_hello_wf(*sh),
    ensures
        r@ == spec_session_key_of(own_key.spec_secret(), peer_public@, *ch, *sh),
        r@.len() == 32,
{
    let shared = own_key.diffie_hellman(peer_public);
    let mut salt = slice_to_vec(ch.client_random.as_slice());
    salt.extend_from_slice(sh.server_random.as_slice());
    let info = hkdf_info();
    let key = match shared.derive_session_key(salt.as_slice(), info.as_slice()) {
        Ok(k) => k,
        Err(_) => {
            proof {
                assert(false);
            }
            SessionKey::random()
        },
    };
    assert(shared@ == x25519_dh_of(own_key.spec_secret(), peer_public@));
    assert(salt@ == ch.client_random@ + sh.server_random@);
    assert(info@ == spec_hkdf_info());
    assert(key@ == hkdf_sha256_32(salt@, shared@, info@));
    key
}

/// The states of the handshake state machines.
#[derive(Clone, Copy, Debug, PartialEq, Eq, Structural)]
pub enum HandshakeState {
    /// Nothing exchanged yet.
    Initial,
    /// The initiator has sent its ClientHello.
    ClientHelloSent,
    /// The initiator has processed the ServerHello and holds the key.
    ServerHelloReceived,
    /// The initiator has sent its confirmation tag.
    ClientVerifySent,
    /// The handshake is complete; the key is confirmed.
    Completed,
    /// The responder has processed a ClientHello.
    ClientHelloReceived,
    /// The responder has sent its ServerHello.
    ServerHelloSent,
    /// The responder has verified the initiator's confirmation tag.
    ClientVerifyReceived,
}

/// The initiator's handshake context.
pub struct ClientHandshake {
    state: HandshakeState,
    client_key: X25519Key,
    mimicry_profile: MimicryProfile,
    client_hello: Option<ClientHello>,
    server_hello: Option<ServerHello>,
    session_key: Option<SessionKey>,
}

impl ClientHandshake {
    /// The machine's state, for contracts.
    pub closed spec fn spec_state(&self) -> HandshakeState {
        self.state
    }

    /// The ephemeral key pair, for contracts.
    pub closed spec fn spec_key(&self) -> X25519Key {
        self.client_key
    }

    /// The requested mimicry profile, for contracts.
    pub closed spec fn spec_profile(&self) -> MimicryProfile {
        self.mimicry_profile
    }

    /// The stored ClientHello, for contracts.
    pub closed spec fn spec_client_hello(&self) -> Option<ClientHello> {
        self.client_hello
    }

    /// The stored ServerHello, for contracts.
    pub closed spec fn spec_server_hello(&self) -> Option<ServerHello> {
        self.server_hello
    }

    /// The derived session key, for contracts.
    pub closed spec fn spec_session_key(&self) -> Option<SessionKey> {
        self.session_key
    }

    /// The stored ClientHello is well-formed and carries this context's
    /// public key and profile.
    pub open spec fn client_hello_ok(&self) -> bool {
        match self.spec_client_hello() {
            Some(ch) => client_hello_wf(ch) && ch.client_public_key@
                == self.spec_key().spec_public() && ch.mimicry_profile == self.spec_profile(),
            None => false,
        }
    }

    /// The stored ServerHello is well-formed and the session key is derived
    /// from it and the stored ClientHello.
    pub open spec fn keyed_ok(&self) -> bool {
        match (self.spec_client_hello(), self.spec_server_hello(), self.spec_session_key()) {
            (Some(ch), Some(sh), Some(k)) => server_hello_wf(sh) && k@ == spec_session_key_of(
                self.spec_key().spec_secret(),
                sh.server_public_key@,
                ch,
                sh,
            ) && k@.len() == 32,
            _ => false,
        }
    }

    /// The context's invariant: what each state guarantees about the stored
    /// messages and the key. A session key exists only from the moment both
    /// Hellos are processed, and the machine never leaves the initiator's
    /// states.
    pub open spec fn wf(&self) -> bool {
        &&& self.spec_key().wf()
        &&& match self.spec_state() {
            HandshakeState::Initial => self.spec_client_hello() is None && self.spec_server_hello()
                is None && self.spec_session_key() is None,
            HandshakeState::ClientHelloSent => self.client_hello_ok() && self.spec_server_hello()
                is None && self.spec_session_key() is None,
            HandshakeState::ServerHelloReceived => self.client_hello_ok() && self.keyed_ok(),
            HandshakeState::ClientVerifySent => self.client_hello_ok() && self.keyed_ok(),
            HandshakeState::Completed => self.client_hello_ok() && self.keyed_ok(),
            _ => false,
        }
    }

    /// A fresh initiator context around an ephemeral key pair.
    pub fn new(client_key: X25519Key, mimicry_profile: MimicryProfile) -> (r: ClientHandshake)
        requires
            client_key.wf(),
        ensures
            r.wf(),
            r.spec_state() == HandshakeState::Initial,
            r.spec_key() == client_key,
            r.spec_profile() == mimicry_profile,
    {
        ClientHandshake {
            state: HandshakeState::Initial,
            client_key,
            mimicry_profile,
            client_hello: None,
            server_hello: None,
            session_key: None,
        }
    }

    /// Open the handshake: emit the ClientHello carrying this context's
    /// public key, the given random contribution and the requested profile.
    /// In any state but `Initial` the call fails with `InvalidState` and
    /// changes nothing.
    pub fn start(&mut self, client_random: &[u8]) -> (r: Result<Vec<u8>, LlpError>)
        requires
            old(self).wf(),
            client_random@.len() == RANDOM_SIZE,
        ensures
            final(self).wf(),
            old(self).spec_state() != HandshakeState::Initial ==> r == Err::<Vec<u8>, _>(
                LlpError::HandshakeError(HandshakeError::InvalidState),
            ) && *final(self) == *old(self),
            old(self).spec_state() == HandshakeState::Initial ==> {
                &&& final(self).spec_state() == HandshakeState::ClientHelloSent
                &&& final(self).spec_key() == old(self).spec_key()
                &&& final(self).spec_profile() == old(self).spec_profile()
                &&& (final(self).spec_client_hello() matches Some(ch) && {
                    &&& ch.client_public_key@ == old(self).spec_key().spec_public()
                    &&& ch.client_random@ == client_random@
                    &&& ch.mimicry_profile == old(self).spec_profile()
                    &&& r matches Ok(msg) && msg@ == spec_client_hello_bytes(ch)
                })
            },
    {
        if !matches!(self.state, HandshakeState::Initial) {
            return Err(LlpError::HandshakeError(HandshakeError::InvalidState));
        }
        let client_hello = ClientHello::new(&self.client_key, client_random, self.mimicry_profile);
        let message = client_hello.serialize();
        self.client_hello = Some(client_hello);
        self.state = HandshakeState::ClientHelloSent;
        Ok(message)
    }

    /// Process the responder's ServerHello: run the X25519 exchange, derive
    /// the session key, and return the session id the responder chose.
    /// Expected only in `ClientHelloSent`; a malformed message leaves the
    /// context unchanged.
    pub fn process_server_hello(&mut self, data: &[u8]) -> (r: Result<u64, LlpError>)
        requires
            old(self).wf(),
        ensures
            final(self).wf(),
            old(self).spec_state() != HandshakeState::ClientHelloSent ==> r == Err::<u64, _>(
                LlpError::HandshakeError(HandshakeError::InvalidState),
            ) && *final(self) == *old(self),
            old(self).spec_state() == HandshakeState::ClientHelloSent ==> ({
                if data@.len() < SERVER_HELLO_SIZE {
                    r == Err::<u64, LlpError>(
                        LlpError::HandshakeError(HandshakeError::InvalidMessageFormat),
                    ) && *final(self) == *old(self)
                } else if data@[0] != 2 {
                    r == Err::<u64, LlpError>(
                        LlpError::HandshakeError(
                            HandshakeError::UnexpectedMessage { expected: 2, actual: data@[0] },
                        ),
                    ) && *final(self) == *old(self)
                } else {
                    &&& final(self).spec_state() == HandshakeState::ServerHelloReceived
                    &&& final(self).spec_key() == old(self).spec_key()
                    &&& final(self).spec_profile() == old(self).spec_profile()
                    &&& final(self).spec_client_hello() == old(self).spec_client_hello()
                    &&& (final(self).spec_server_hello() matches Some(sh) && {
                        &&& sh.server_public_key@ == data@.subrange(1, 33)
                        &&& sh.server_random@ == data@.subrange(33, 65)
                        &&& sh.session_id == u64_of_be(
                            data@[65],
                            data@[66],
                            data@[67],
                            data@[68],
                            data@[69],
                            data@[70],
                            data@[71],
                            data@[72],
                        )
                        &&& r == Ok::<u64, LlpError>(sh.session_id)
                        &&& (final(self).spec_session_key() matches Some(k) && k@
                            == spec_session_key_of(
                            old(self).spec_key().spec_secret(),
                            sh.server_public_key@,
                            old(self).spec_client_hello().unwrap(),
                            sh,
                        ))
                    })
                }
            }),
    {
        if !matches!(self.state, HandshakeState::ClientHelloSent) {
            return Err(LlpError::HandshakeError(HandshakeError::InvalidState));
        }
        let server_hello = match ServerHello::deserialize(data) {
            Ok(sh) => sh,
            Err(e) => {
                return Err(e);
            },
        };
        let session_id = server_hello.session_id;
        let client_hello = match &self.client_hello {
            Some(ch) => ch,
            None => {
                proof {
                    assert(false);
                }
                return Err(LlpError::HandshakeError(HandshakeError::InvalidState));
            },
        };
        let session_key = derive_session_key(
            &self.client_key,
            server_hello.server_public_key.as_slice(),
            client_hello,
            &server_hello,
        );
        self.server_hello = Some(server_hello);
        self.session_key = Some(session_key);
        self.state = HandshakeState::ServerHelloReceived;
        Ok(session_id)
    }

    /// Emit the ClientVerify: the transcript's HMAC under the derived key.
    /// Expected only in `ServerHelloReceived`.
    pub fn send_client_verify(&mut self) -> (r: Result<Vec<u8>, LlpError>)
        requires
            old(self).wf(),
        ensures
            final(self).wf(),
            old(self).spec_state() != HandshakeState::ServerHelloReceived ==> r == Err::<
                Vec<u8>,
                _,
            >(LlpError::HandshakeError(HandshakeError::InvalidState)) && *final(self) == *old(self),
            old(self).spec_state() == HandshakeState::ServerHelloReceived ==> {
                &&& final(self).spec_state() == HandshakeState::ClientVerifySent
                &&& final(self).spec_key() == old(self).spec_key()
                &&& final(self).spec_profile() == old(self).spec_profile()
                &&& final(self).spec_client_hello() == old(self).spec_client_hello()
                &&& final(self).spec_server_hello() == old(self).spec_server_hello()
                &&& final(self).spec_session_key() == old(self).spec_session_key()
                &&& (r matches Ok(msg) && msg@ == spec_verify_bytes(
                    3,
                    hmac_sha256_of(
                        old(self).spec_session_key().unwrap()@,
                        spec_transcript(
                            old(self).spec_client_hello().unwrap(),
                            old(self).spec_server_hello().unwrap(),
                        ),
                    ),
                ))
            },
    {
        if !matches!(self.state, HandshakeState::ServerHelloReceived) {
            return Err(LlpError::HandshakeError(HandshakeError::InvalidState));
        }
        let (transcript, message) = match (&self.client_hello, &self.server_hello, &self.session_key) {
            (Some(ch), Some(sh), Some(key)) => {
                let transcript = build_transcript(ch, sh);
                let client_verify = ClientVerify::new(key, transcript.as_slice());
                (transcript, client_verify.serialize())
            },
            _ => {
                proof {
                    assert(false);
                }
                return Err(LlpError::HandshakeError(HandshakeError::InvalidState));
            },
        };
        self.state = HandshakeState::ClientVerifySent;
        Ok(message)
    }

    /// Process the responder's ServerVerify: check its tag against the
    /// transcript; on success the handshake is complete. Expected only in
    /// `ClientVerifySent`; on any failure the context is unchanged.
    pub fn process_server_verify(&mut self, data: &[u8]) -> (r: Result<(), LlpError>)
        requires
            old(self).wf(),
        ensures
            final(self).wf(),
            old(self).spec_state() != HandshakeState::ClientVerifySent ==> r == Err::<(), _>(
                LlpError::HandshakeError(HandshakeError::InvalidState),
            ) && *final(self) == *old(self),
            old(self).spec_state() == HandshakeState::ClientVerifySent ==> ({
                let tag = hmac_sha256_of(
                    old(self).spec_session_key().unwrap()@,
                    spec_transcript(
                        old(self).spec_client_hello().unwrap(),
                        old(self).spec_server_hello().unwrap(),
                    ),
                );
                if data@.len() < VERIFY_SIZE {
                    r == Err::<(), LlpError>(
                        LlpError::HandshakeError(HandshakeError::InvalidMessageFormat),
                    ) && *final(self) == *old(self)
                } else if data@[0] != 4 {
                    r == Err::<(), LlpError>(
                        LlpError::HandshakeError(
                            HandshakeError::UnexpectedMessage { expected: 4, actual: data@[0] },
                        ),
                    ) && *final(self) == *old(self)
                } else if data@.subrange(1, 33) == tag {
                    &&& r is Ok
                    &&& final(self).spec_state() == HandshakeState::Completed
                    &&& final(self).spec_session_key() == old(self).spec_session_key()
                    &&& final(self).spec_client_hello() == old(self).spec_client_hello()
                    &&& final(self).spec_server_hello() == old(self).spec_server_hello()
                    &&& final(self).spec_key() == old(self).spec_key()
                    &&& final(self).spec_profile() == old(self).spec_profile()
                } else {
                    r == Err::<(), LlpError>(
                        LlpError::HandshakeError(HandshakeError::VerificationFailed),
                    ) && *final(self) == *old(self)
                }
            }),
    {
        if !matches!(self.state, HandshakeState::ClientVerifySent) {
            return Err(LlpError::HandshakeError(HandshakeError::InvalidState));
        }
        let server_verify = match ServerVerify::deserialize(data) {
            Ok(sv) => sv,
            Err(e) => {
                return Err(e);
            },
        };
        match (&self.client_hello, &self.server_hello, &self.session_key) {
            (Some(ch), Some(sh), Some(key)) => {
                let transcript = build_transcript(ch, sh);
                match server_verify.verify(key, transcript.as_slice()) {
                    Ok(()) => {},
                    Err(e) => {
                        return Err(e);
                    },
                }
            },
            _ => {
                proof {
                    assert(false);
                }
                return Err(LlpError::HandshakeError(HandshakeError::InvalidState));
            },
        }
        self.state = HandshakeState::Completed;
        Ok(())
    }

    /// The session key, observable only once the handshake completed.
    pub fn session_key(&self) -> (r: Option<&SessionKey>)
        requires
            self.wf(),
        ensures
            r is Some <==> self.spec_state() == HandshakeState::Completed,
            r matches Some(k) ==> Some(*k) == self.spec_session_key(),
    {
        if matches!(self.state, HandshakeState::Completed) {
            match &self.session_key {
                Some(k) => Some(k),
                None => {
                    proof {
                        assert(false);
                    }
                    None
                },
            }
        } else {
            None
        }
    }

    /// Whether the handshake has completed.
    pub fn is_completed(&self) -> (r: bool)
        ensures
            r == (self.spec_state() == HandshakeState::Completed),
    {
        matches!(self.state, HandshakeState::Completed)
    }

    /// The session id the responder chose, known once its Hello arrived.
    pub fn session_id(&self) -> (r: Option<u64>)
        ensures
            r is Some <==> self.spec_server_hello() is Some,
            r matches Some(sid) ==> sid == self.spec_server_hello().unwrap().session_id,
    {
        match &self.server_hello {
            Some(sh) => Some(sh.session_id),
            None => None,
        }
    }
}

/// The responder's handshake context.
pub struct ServerHandshake {
    state: HandshakeState,
    server_key: X25519Key,
    session_id: u64,
    client_hello: Option<ClientHello>,
    server_hello: Option<ServerHello>,
    session_key: Option<SessionKey>,
}

impl ServerHandshake {
    /// The machine's state, for contracts.
    pub closed spec fn spec_state(&self) -> HandshakeState {
        self.state
    }

    /// The ephemeral key pair, for contracts.
    pub closed spec fn spec_key(&self) -> X25519Key {
        self.server_key
    }

    /// The session id this responder assigns, for contracts.
    pub closed spec fn spec_session_id(&self) -> u64 {
        self.session_id
    }

    /// The stored ClientHello, for contracts.
    pub closed spec fn spec_client_hello(&self) -> Option<ClientHello> {
        self.client_hello
    }

    /// The stored ServerHello, for contracts.
    pub closed spec fn spec_server_hello(&self) -> Option<ServerHello> {
        self.server_hello
    }

    /// The derived session key, for contracts.
    pub closed spec fn spec_session_key(&self) -> Option<SessionKey> {
        self.session_key
    }

    /// Both Hellos are stored well-formed, the ServerHello carries this
    /// context's public key and session id, and the session key is derived
    /// from the exchange.
    pub open spec fn exchanged_ok(&self) -> bool {
        match (self.spec_client_hello(), self.spec_server_hello(), self.spec_session_key()) {
            (Some(ch), Some(sh), Some(k)) => {
                &&& client_hello_wf(ch)
                &&& server_hello_wf(sh)
                &&& sh.server_public_key@ == self.spec_key().spec_public()
                &&& sh.session_id == self.spec_session_id()
                &&& k@ == spec_session_key_of(
                    self.spec_key().spec_secret(),
                    ch.client_public_key@,
                    ch,
                    sh,
                )
                &&& k@.len() == 32
            },
            _ => false,
        }
    }

    /// The context's invariant: before a ClientHello arrives nothing is
    /// stored; from the ServerHello on, both messages and the derived key
    /// are, and the machine never leaves the responder's states.
    pub open spec fn wf(&self) -> bool {
        &&& self.spec_key().wf()
        &&& match self.spec_state() {
            HandshakeState::Initial => self.spec_client_hello() is None && self.spec_server_hello()
                is None && self.spec_session_key() is None,
            HandshakeState::ServerHelloSent => self.exchanged_ok(),
            HandshakeState::ClientVerifyReceived => self.exchanged_ok(),
            HandshakeState::Completed => self.exchanged_ok(),
            _ => false,
        }
    }

    /// A fresh responder context around an ephemeral key pair and the
    /// session id it will assign.
    pub fn new(server_key: X25519Key, session_id: u64) -> (r: ServerHandshake)
        requires
            server_key.wf(),
        ensures
            r.wf(),
            r.spec_state() == HandshakeState::Initial,
            r.spec_key() == server_key,
            r.spec_session_id() == session_id,
    {
        ServerHandshake {
            state: HandshakeState::Initial,
            server_key,
            session_id,
            client_hello: None,
            server_hello: None,
            session_key: None,
        }
    }

    /// Process a ClientHello: run the exchange, derive the session key, and
    /// emit the ServerHello together with the profile the initiator asked
    /// for. Expected only in `Initial`; a malformed message leaves the
    /// context unchanged.
    pub fn process_client_hello(&mut self, data: &[u8], server_random: &[u8]) -> (r: Result<
        (Vec<u8>, MimicryProfile),
        LlpError,
    >)
        requires
            old(self).wf(),
            server_random@.len() == RANDOM_SIZE,
        ensures
            final(self).wf(),
            old(self).spec_state() != HandshakeState::Initial ==> r == Err::<
                (Vec<u8>, MimicryProfile),
                _,
            >(LlpError::HandshakeError(HandshakeError::InvalidState)) && *final(self) == *old(self),
            old(self).spec_state() == HandshakeState::Initial ==> ({
                if data@.len() < CLIENT_HELLO_SIZE {
                    r == Err::<(Vec<u8>, MimicryProfile), LlpError>(
                        LlpError::HandshakeError(HandshakeError::InvalidMessageFormat),
                    ) && *final(self) == *old(self)
                } else if data@[0] != 1 {
                    r == Err::<(Vec<u8>, MimicryProfile), LlpError>(
                        LlpError::HandshakeError(
                            HandshakeError::UnexpectedMessage { expected: 1, actual: data@[0] },
                        ),
                    ) && *final(self) == *old(self)
                } else if spec_profile_from_u16(u16_of_be(data@[65], data@[66])) is None {
                    r == Err::<(Vec<u8>, MimicryProfile), LlpError>(
                        LlpError::HandshakeError(
                            HandshakeError::UnsupportedMimicryProfile(
                                u16_of_be(data@[65], data@[66]),
                            ),
                        ),
                    ) && *final(self) == *old(self)
                } else {
                    &&& final(self).spec_state() == HandshakeState::ServerHelloSent
                    &&& final(self).spec_key() == old(self).spec_key()
                    &&& final(self).spec_session_id() == old(self).spec_session_id()
                    &&& (final(self).spec_client_hello() matches Some(ch) && {
                        &&& ch.client_public_key@ == data@.subrange(1, 33)
                        &&& ch.client_random@ == data@.subrange(33, 65)
                        &&& Some(ch.mimicry_profile) == spec_profile_from_u16(
                            u16_of_be(data@[65], data@[66]),
                        )
                        &&& (final(self).spec_server_hello() matches Some(sh) && {
                            &&& sh.server_public_key@ == old(self).spec_key().spec_public()
                            &&& sh.server_random@ == server_random@
                            &&& sh.session_id == old(self).spec_session_id()
                            &&& (r matches Ok(out) && out.0@ == spec_server_hello_bytes(sh)
                                && out.1 == ch.mimicry_profile)
                        })
                    })
                }
            }),
    {
        if !matches!(self.state, HandshakeState::Initial) {
            return Err(LlpError::HandshakeError(HandshakeError::InvalidState));
        }
        let client_hello = match ClientHello::deserialize(data) {
            Ok(ch) => ch,
            Err(e) => {
                return Err(e);
            },
        };
        let mimicry_profile = client_hello.mimicry_profile;
        let server_hello = ServerHello::new(&self.server_key, server_random, self.session_id);
        let session_key = derive_session_key(
            &self.server_key,
            client_hello.client_public_key.as_slice(),
            &client_hello,
            &server_hello,
        );
        let message = server_hello.serialize();
        self.client_hello = Some(client_hello);
        self.server_hello = Some(server_hello);
        self.session_key = Some(session_key);
        self.state = HandshakeState::ServerHelloSent;
        Ok((message, mimicry_profile))
    }

    /// Process the initiator's ClientVerify: check its tag against the
    /// transcript. Expected only in `ServerHelloSent`; on any failure the
    /// context is unchanged, and no session may be committed.
    pub fn process_client_verify(&mut self, data: &[u8]) -> (r: Result<(), LlpError>)
        requires
            old(self).wf(),
        ensures
            final(self).wf(),
            old(self).spec_state() != HandshakeState::ServerHelloSent ==> r == Err::<(), _>(
                LlpError::HandshakeError(HandshakeError::InvalidState),
            ) && *final(self) == *old(self),
            old(self).spec_state() == HandshakeState::ServerHelloSent ==> ({
                let tag = hmac_sha256_of(
                    old(self).spec_session_key().unwrap()@,
                    spec_transcript(
                        old(self).spec_client_hello().unwrap(),
                        old(self).spec_server_hello().unwrap(),
                    ),
                );
                if data@.len() < VERIFY_SIZE {
                    r == Err::<(), LlpError>(
                        LlpError::HandshakeError(HandshakeError::InvalidMessageFormat),
                    ) && *final(self) == *old(self)
                } else if data@[0] != 3 {
                    r == Err::<(), LlpError>(
                        LlpError::HandshakeError(
                            HandshakeError::UnexpectedMessage { expected: 3, actual: data@[0] },
                        ),
                    ) && *final(self) == *old(self)
                } else if data@.subrange(1, 33) == tag {
                    &&& r is Ok
                    &&& final(self).spec_state() == HandshakeState::ClientVerifyReceived
                    &&& final(self).spec_session_key() == old(self).spec_session_key()
                    &&& final(self).spec_client_hello() == old(self).spec_client_hello()
                    &&& final(self).spec_server_hello() == old(self).spec_server_hello()
                    &&& final(self).spec_key() == old(self).spec_key()
                    &&& final(self).spec_session_id() == old(self).spec_session_id()
                } else {
                    r == Err::<(), LlpError>(
                        LlpError::HandshakeError(HandshakeError::VerificationFailed),
                    ) && *final(self) == *old(self)
                }
            }),
    {
        if !matches!(self.state, HandshakeState::ServerHelloSent) {
            return Err(LlpError::HandshakeError(HandshakeError::InvalidState));
        }
        let client_verify = match ClientVerify::deserialize(data) {
            Ok(cv) => cv,
            Err(e) => {
                return Err(e);
            },
        };
        match (&self.client_hello, &self.server_hello, &self.session_key) {
            (Some(ch), Some(sh), Some(key)) => {
                let transcript = build_transcript(ch, sh);
                match client_verify.verify(key, transcript.as_slice()) {
                    Ok(()) => {},
                    Err(e) => {
                        return Err(e);
                    },
                }
            },
            _ => {
                proof {
                    assert(false);
                }
                return Err(LlpError::HandshakeError(HandshakeError::InvalidState));
            },
        }
        self.state = HandshakeState::ClientVerifyReceived;
        Ok(())
    }

    /// Emit the ServerVerify and complete the handshake. Expected only in
    /// `ClientVerifyReceived`.
    pub fn send_server_verify(&mut self) -> (r: Result<Vec<u8>, LlpError>)
        requires
            old(self).wf(),
        ensures
            final(self).wf(),
            old(self).spec_state() != HandshakeState::ClientVerifyReceived ==> r == Err::<
                Vec<u8>,
                _,
            >(LlpError::HandshakeError(HandshakeError::InvalidState)) && *final(self) == *old(self),
            old(self).spec_state() == HandshakeState::ClientVerifyReceived ==> {
                &&& final(self).spec_state() == HandshakeState::Completed
                &&& final(self).spec_key() == old(self).spec_key()
                &&& final(self).spec_session_id() == old(self).spec_session_id()
                &&& final(self).spec_client_hello() == old(self).spec_client_hello()
                &&& final(self).spec_server_hello() == old(self).spec_server_hello()
                &&& final(self).spec_session_key() == old(self).spec_session_key()
                &&& (r matches Ok(msg) && msg@ == spec_verify_bytes(
                    4,
                    hmac_sha256_of(
                        old(self).spec_session_key().unwrap()@,
                        spec_transcript(
                            old(self).spec_client_hello().unwrap(),
                            old(self).spec_server_hello().unwrap(),
                        ),
                    ),
                ))
            },
    {
        if !matches!(self.state, HandshakeState::ClientVerifyReceived) {
            return Err(LlpError::HandshakeError(HandshakeError::InvalidState));
        }
        let message = match (&self.client_hello, &self.server_hello, &self.session_key) {
            (Some(ch), Some(sh), Some(key)) => {
                let transcript = build_transcript(ch, sh);
                let server_verify = ServerVerify::new(key, transcript.as_slice());
                server_verify.serialize()
            },
            _ => {
                proof {
                    assert(false);
                }
                return Err(LlpError::HandshakeError(HandshakeError::InvalidState));
            },
        };
        self.state = HandshakeState::Completed;
        Ok(message)
    }

    /// The session key, observable only once the handshake completed.
    pub fn session_key(&self) -> (r: Option<&SessionKey>)
        requires
            self.wf(),
        ensures
            r is Some <==> self.spec_state() == HandshakeState::Completed,
            r matches Some(k) ==> Some(*k) == self.spec_session_key(),
    {
        if matches!(self.state, HandshakeState::Completed) {
            match &self.session_key {
                Some(k) => Some(k),
                None => {
                    proof {
                        assert(false);
                    }
                    None
                },
            }
        } else {
            None
        }
    }

    /// Whether the handshake has completed.
    pub fn is_completed(&self) -> (r: bool)
        ensures
            r == (self.spec_state() == HandshakeState::Completed),
    {
        matches!(self.state, HandshakeState::Completed)
    }

    /// The profile the initiator asked for, known once its Hello arrived.
    pub fn mimicry_profile(&self) -> (r: Option<MimicryProfile>)
        ensures
            r is Some <==> self.spec_client_hello() is Some,
            r matches Some(p) ==> p == self.spec_client_hello().unwrap().mimicry_profile,
    {
        match &self.client_hello {
            Some(ch) => Some(ch.mimicry_profile),
            None => None,
        }
    }
}

} // verus!
