//! The wire packet format.
//!
//! A packet is `header(24) || encrypted_payload || padding || auth_tag(16)`,
//! all multi-byte header fields big-endian:
//!
//! ```text
//! offset size field
//! 0      1    version
//! 1      1    flags
//! 2      2    payload_length
//! 4      8    session_id
//! 12     4    sequence_number
//! 16     4    timestamp
//! 20     2    mimicry_profile
//! 22     2    padding_length
//! ```

use vstd::prelude::*;
use vstd::slice::{slice_subrange, slice_to_vec};

use crate::endian::{
    lemma_u16_be_round, lemma_u32_be_round, lemma_u64_be_round, push_u16_be, push_u32_be,
    push_u64_be, read_u16_be, read_u32_be, read_u64_be, u16_be, u16_of_be, u32_be, u32_of_be,
    u64_be, u64_of_be,
};
use crate::errors::{CryptoError, HandshakeError, LlpError, PacketError};
use crate::PROTOCOL_VERSION;

verus! {

/// Size of the fixed packet header in bytes.
pub const HEADER_SIZE: usize = 24;

/// Size of the Poly1305 authentication tag in bytes.
pub const AUTH_TAG_SIZE: usize = 16;

/// Smallest possible packet: a header and a tag.
pub const MIN_PACKET_SIZE: usize = HEADER_SIZE + AUTH_TAG_SIZE;

/// Largest admissible packet.
pub const MAX_PACKET_SIZE: usize = 65536;

/// Largest admissible padding.
pub const MAX_PADDING_SIZE: usize = 1024;

/// Largest admissible payload: what remains of a maximal packet after the
/// header, the tag and maximal padding.
pub const MAX_PAYLOAD_SIZE: usize = MAX_PACKET_SIZE - MIN_PACKET_SIZE - MAX_PADDING_SIZE;

/// Flag: the packet carries data.
pub const FLAG_DATA: u8 = 0x01;

/// Flag: the packet carries control information.
pub const FLAG_CONTROL: u8 = 0x02;

/// Flag: the packet is a fragment.
pub const FLAG_FRAGMENT: u8 = 0x04;

/// Flag: the packet is the last fragment of its sequence.
pub const FLAG_LAST_FRAG: u8 = 0x08;

/// Flag: the packet acknowledges receipt.
pub const FLAG_ACK: u8 = 0x10;

/// Flag: the packet is a keepalive.
pub const FLAG_KEEPALIVE: u8 = 0x20;

/// Flag: the packet requests a rekey.
pub const FLAG_REKEY: u8 = 0x40;

/// Flag: reserved; must be zero on the wire.
pub const FLAG_RESERVED: u8 = 0x80;

/// The traffic-mimicry profile a session impersonates.
#[derive(Clone, Copy, Debug, PartialEq, Eq, Structural, Hash)]
pub enum MimicryProfile {
    /// No mimicry: the wire carries the packet bytes as they are.
    Plain,
    /// Impersonate VK Video streaming.
    VkVideo,
    /// Impersonate Yandex Music streaming.
    YandexMusic,
    /// Impersonate RuTube streaming.
    RuTube,
}

/// The wire identifier of a profile.
pub open spec fn spec_profile_to_u16(p: MimicryProfile) -> u16 {
    match p {
        MimicryProfile::Plain => 0,
        MimicryProfile::VkVideo => 1,
        MimicryProfile::YandexMusic => 2,
        MimicryProfile::RuTube => 3,
    }
}

/// The profile a wire identifier denotes, if any.
pub open spec fn spec_profile_from_u16(value: u16) -> Option<MimicryProfile> {
    match value {
        0u16 => Some(MimicryProfile::Plain),
        1u16 => Some(MimicryProfile::VkVideo),
        2u16 => Some(MimicryProfile::YandexMusic),
        3u16 => Some(MimicryProfile::RuTube),
        _ => None,
    }
}

impl MimicryProfile {
    /// The profile a wire identifier denotes; `None` for an unknown value.
    pub fn from_u16(value: u16) -> (r: Option<MimicryProfile>)
        ensures
            r == spec_profile_from_u16(value),
    {
        match value {
            0u16 => Some(MimicryProfile::Plain),
            1u16 => Some(MimicryProfile::VkVideo),
            2u16 => Some(MimicryProfile::YandexMusic),
            3u16 => Some(MimicryProfile::RuTube),
            _ => None,
        }
    }

    /// The wire identifier of this profile.
    pub fn to_u16(self) -> (r: u16)
        ensures
            r == spec_profile_to_u16(self),
    {
        match self {
            MimicryProfile::Plain => 0,
            MimicryProfile::VkVideo => 1,
            MimicryProfile::YandexMusic => 2,
            MimicryProfile::RuTube => 3,
        }
    }
}

/// A wire identifier round-trips through its profile.
pub proof fn lemma_profile_round_trip(p: MimicryProfile)
    ensures
        spec_profile_from_u16(spec_profile_to_u16(p)) == Some(p),
{
}

/// The packet header.
#[derive(Clone, Copy, Debug, PartialEq, Eq, Structural)]
pub struct PacketHeader {
    /// Protocol version; must be [`PROTOCOL_VERSION`].
    pub version: u8,
    /// Flag bits; the reserved bit must be zero.
    pub flags: u8,
    /// Length of the encrypted payload.
    pub payload_length: u16,
    /// Session identifier.
    pub session_id: u64,
    /// Sequence number of the packet within its session.
    pub sequence_number: u32,
    /// Seconds since the Unix epoch at which the packet was made.
    pub timestamp: u32,
    /// The session's mimicry profile.
    pub mimicry_profile: MimicryProfile,
    /// Length of the padding.
    pub padding_length: u16,
}

/// The 24 bytes a header serializes to.
pub open spec fn spec_header_bytes(h: PacketHeader) -> Seq<u8> {
    seq![h.version, h.flags] + u16_be(h.payload_length) + u64_be(h.session_id) + u32_be(
        h.sequence_number,
    ) + u32_be(h.timestamp) + u16_be(spec_profile_to_u16(h.mimicry_profile)) + u16_be(
        h.padding_length,
    )
}

/// What header parsing yields on any byte string: the header, or the exact
/// error the bytes earn, in the order the checks are made.
pub open spec fn spec_parse_header(b: Seq<u8>) -> Result<PacketHeader, LlpError> {
    if b.len() < HEADER_SIZE {
        Err(
            LlpError::PacketError(
                PacketError::InsufficientData {
                    required: HEADER_SIZE,
                    available: b.len() as usize,
                },
            ),
        )
    } else if b[0] != PROTOCOL_VERSION {
        Err(LlpError::PacketError(PacketError::UnsupportedVersion(b[0])))
    } else if b[1] & FLAG_RESERVED != 0 {
        Err(LlpError::PacketError(PacketError::InvalidFlags(b[1])))
    } else if spec_profile_from_u16(u16_of_be(b[20], b[21])) is None {
        Err(
            LlpError::HandshakeError(
                HandshakeError::UnsupportedMimicryProfile(u16_of_be(b[20], b[21])),
            ),
        )
    } else if u16_of_be(b[22], b[23]) > MAX_PADDING_SIZE as u16 {
        Err(
            LlpError::PacketError(
                PacketError::InvalidPaddingSize {
                    size: u16_of_be(b[22], b[23]) as usize,
                    max: MAX_PADDING_SIZE,
                },
            ),
        )
    } else {
        Ok(
            PacketHeader {
                version: b[0],
                flags: b[1],
                payload_length: u16_of_be(b[2], b[3]),
                session_id: u64_of_be(b[4], b[5], b[6], b[7], b[8], b[9], b[10], b[11]),
                sequence_number: u32_of_be(b[12], b[13], b[14], b[15]),
                timestamp: u32_of_be(b[16], b[17], b[18], b[19]),
                mimicry_profile: spec_profile_from_u16(u16_of_be(b[20], b[21])).unwrap(),
                padding_length: u16_of_be(b[22], b[23]),
            },
        )
    }
}

/// A header that serialization and parsing both admit.
pub open spec fn header_valid(h: PacketHeader) -> bool {
    &&& h.version == PROTOCOL_VERSION
    &&& h.flags & FLAG_RESERVED == 0
    &&& h.padding_length <= MAX_PADDING_SIZE as u16
}

impl PacketHeader {
    /// A fresh header: current protocol version, zero lengths.
    pub fn new(
        flags: u8,
        session_id: u64,
        sequence_number: u32,
        mimicry_profile: MimicryProfile,
        timestamp: u32,
    ) -> (h: PacketHeader)
        ensures
            h == (PacketHeader {
                version: PROTOCOL_VERSION,
                flags,
                payload_length: 0,
                session_id,
                sequence_number,
                timestamp,
                mimicry_profile,
                padding_length: 0,
            }),
    {
        PacketHeader {
            version: PROTOCOL_VERSION,
            flags,
            payload_length: 0,
            session_id,
            sequence_number,
            timestamp,
            mimicry_profile,
            padding_length: 0,
        }
    }

    /// Append the header's 24 bytes to `buf`.
    pub fn serialize(&self, buf: &mut Vec<u8>)
        ensures
            final(buf)@ == old(buf)@ + spec_header_bytes(*self),
    {
        buf.push(self.version);
        buf.push(self.flags);
        push_u16_be(buf, self.payload_length);
        push_u64_be(buf, self.session_id);
        push_u32_be(buf, self.sequence_number);
        push_u32_be(buf, self.timestamp);
        push_u16_be(buf, self.mimicry_profile.to_u16());
        push_u16_be(buf, self.padding_length);
        assert(final(buf)@ =~= old(buf)@ + spec_header_bytes(*self));
    }

    /// Parse a header from the front of `data`.
    pub fn deserialize(data: &[u8]) -> (r: Result<PacketHeader, LlpError>)
        ensures
            r == spec_parse_header(data@),
    {
        if data.len() < HEADER_SIZE {
            return Err(
                LlpError::PacketError(
                    PacketError::InsufficientData {
                        required: HEADER_SIZE,
                        available: data.len(),
                    },
                ),
            );
        }
        let version = data[0];
        if version != PROTOCOL_VERSION {
            return Err(LlpError::PacketError(PacketError::UnsupportedVersion(version)));
        }
        let flags = data[1];
        if flags & FLAG_RESERVED != 0 {
            return Err(LlpError::PacketError(PacketError::InvalidFlags(flags)));
        }
        let profile_id = read_u16_be(data, 20);
        let mimicry_profile = match MimicryProfile::from_u16(profile_id) {
            Some(p) => p,
            None => {
                return Err(
                    LlpError::HandshakeError(HandshakeError::UnsupportedMimicryProfile(profile_id)),
                );
            },
        };
        let padding_length = read_u16_be(data, 22);
        if padding_length > MAX_PADDING_SIZE as u16 {
            return Err(
                LlpError::PacketError(
                    PacketError::InvalidPaddingSize {
                        size: padding_length as usize,
                        max: MAX_PADDING_SIZE,
                    },
                ),
            );
        }
        Ok(
            PacketHeader {
                version,
                flags,
                payload_length: read_u16_be(data, 2),
                session_id: read_u64_be(data, 4),
                sequence_number: read_u32_be(data, 12),
                timestamp: read_u32_be(data, 16),
                mimicry_profile,
                padding_length,
            },
        )
    }
}

/// Each byte of a serialized header, named for the round-trip proof.
proof fn lemma_header_bytes_index(h: PacketHeader)
    ensures
        spec_header_bytes(h).len() == 24,
        spec_header_bytes(h)[0] == h.version,
        spec_header_bytes(h)[1] == h.flags,
        spec_header_bytes(h)[2] == u16_be(h.payload_length)[0],
        spec_header_bytes(h)[3] == u16_be(h.payload_length)[1],
        spec_header_bytes(h)[4] == u64_be(h.session_id)[0],
        spec_header_bytes(h)[5] == u64_be(h.session_id)[1],
        spec_header_bytes(h)[6] == u64_be(h.session_id)[2],
        spec_header_bytes(h)[7] == u64_be(h.session_id)[3],
        spec_header_bytes(h)[8] == u64_be(h.session_id)[4],
        spec_header_bytes(h)[9] == u64_be(h.session_id)[5],
        spec_header_bytes(h)[10] == u64_be(h.session_id)[6],
        spec_header_bytes(h)[11] == u64_be(h.session_id)[7],
        spec_header_bytes(h)[12] == u32_be(h.sequence_number)[0],
        spec_header_bytes(h)[13] == u32_be(h.sequence_number)[1],
        spec_header_bytes(h)[14] == u32_be(h.sequence_number)[2],
        spec_header_bytes(h)[15] == u32_be(h.sequence_number)[3],
        spec_header_bytes(h)[16] == u32_be(h.timestamp)[0],
        spec_header_bytes(h)[17] == u32_be(h.timestamp)[1],
        spec_header_bytes(h)[18] == u32_be(h.timestamp)[2],
        spec_header_bytes(h)[19] == u32_be(h.timestamp)[3],
        spec_header_bytes(h)[20] == u16_be(spec_profile_to_u16(h.mimicry_profile))[0],
        spec_header_bytes(h)[21] == u16_be(spec_profile_to_u16(h.mimicry_profile))[1],
        spec_header_bytes(h)[22] == u16_be(h.padding_length)[0],
        spec_header_bytes(h)[23] == u16_be(h.padding_length)[1],
{
}

/// A valid header parses back from its own bytes.
pub proof fn lemma_header_round_trip(h: PacketHeader)
    requires
        header_valid(h),
    ensures
        spec_parse_header(spec_header_bytes(h)) == Ok::<PacketHeader, LlpError>(h),
{
    let b = spec_header_bytes(h);
    lemma_header_bytes_index(h);
    lemma_u16_be_round(h.payload_length);
    lemma_u64_be_round(h.session_id);
    lemma_u32_be_round(h.sequence_number);
    lemma_u32_be_round(h.timestamp);
    lemma_u16_be_round(spec_profile_to_u16(h.mimicry_profile));
    lemma_u16_be_round(h.padding_length);
    lemma_profile_round_trip(h.mimicry_profile);
    assert(spec_profile_to_u16(h.mimicry_profile) <= 3);
    assert(spec_parse_header(b) == Ok::<PacketHeader, LlpError>(h));
}

/// A complete packet: header, encrypted payload, padding, authentication tag.
#[derive(Clone, Debug)]
pub struct LlpPacket {
    /// The packet header.
    pub header: PacketHeader,
    /// The encrypted payload, tag excluded.
    pub encrypted_payload: Vec<u8>,
    /// Padding bytes that disguise the payload's size.
    pub padding: Vec<u8>,
    /// The 16-byte Poly1305 tag.
    pub auth_tag: Vec<u8>,
}

/// A packet that the codec admits in both directions.
pub open spec fn packet_valid(p: LlpPacket) -> bool {
    &&& header_valid(p.header)
    &&& p.encrypted_payload@.len() <= MAX_PAYLOAD_SIZE
    &&& p.padding@.len() <= MAX_PADDING_SIZE
    &&& p.auth_tag@.len() == AUTH_TAG_SIZE
}

/// The header as it goes on the wire: lengths recomputed from the
/// actual payload and padding, so header and body always agree.
pub open spec fn spec_wire_header(p: LlpPacket) -> PacketHeader {
    PacketHeader {
        version: p.header.version,
        flags: p.header.flags,
        payload_length: p.encrypted_payload@.len() as u16,
        session_id: p.header.session_id,
        sequence_number: p.header.sequence_number,
        timestamp: p.header.timestamp,
        mimicry_profile: p.header.mimicry_profile,
        padding_length: p.padding@.len() as u16,
    }
}

/// The bytes a packet serializes to.
pub open spec fn spec_packet_bytes(p: LlpPacket) -> Seq<u8> {
    spec_header_bytes(spec_wire_header(p)) + p.encrypted_payload@ + p.padding@ + p.auth_tag@
}

impl LlpPacket {
    /// Assemble a packet, rejecting an oversized payload or padding and a
    /// tag of the wrong size.
    pub fn new(
        header: PacketHeader,
        encrypted_payload: Vec<u8>,
        padding: Vec<u8>,
        auth_tag: Vec<u8>,
    ) -> (r: Result<LlpPacket, LlpError>)
        ensures
            encrypted_payload@.len() > MAX_PAYLOAD_SIZE ==> r == Err::<LlpPacket, _>(
                LlpError::PacketError(
                    PacketError::PacketTooLarge {
                        size: encrypted_payload@.len() as usize,
                        max: MAX_PAYLOAD_SIZE,
                    },
                ),
            ),
            encrypted_payload@.len() <= MAX_PAYLOAD_SIZE && padding@.len() > MAX_PADDING_SIZE
                ==> r == Err::<LlpPacket, _>(
                LlpError::PacketError(
                    PacketError::InvalidPaddingSize {
                        size: padding@.len() as usize,
                        max: MAX_PADDING_SIZE,
                    },
                ),
            ),
            encrypted_payload@.len() <= MAX_PAYLOAD_SIZE && padding@.len() <= MAX_PADDING_SIZE
                && auth_tag@.len() != AUTH_TAG_SIZE ==> r == Err::<LlpPacket, _>(
                LlpError::CryptoError(
                    CryptoError::InvalidAuthTagSize {
                        expected: AUTH_TAG_SIZE,
                        actual: auth_tag@.len() as usize,
                    },
                ),
            ),
            r matches Ok(p) ==> {
                &&& p.header == header
                &&& p.encrypted_payload@ == encrypted_payload@
                &&& p.padding@ == padding@
                &&& p.auth_tag@ == auth_tag@
                &&& encrypted_payload@.len() <= MAX_PAYLOAD_SIZE
                &&& padding@.len() <= MAX_PADDING_SIZE
                &&& auth_tag@.len() == AUTH_TAG_SIZE
            },
            encrypted_payload@.len() <= MAX_PAYLOAD_SIZE && padding@.len() <= MAX_PADDING_SIZE
                && auth_tag@.len() == AUTH_TAG_SIZE ==> r is Ok,
    {
        if encrypted_payload.len() > MAX_PAYLOAD_SIZE {
            return Err(
                LlpError::PacketError(
                    PacketError::PacketTooLarge {
                        size: encrypted_payload.len(),
                        max: MAX_PAYLOAD_SIZE,
                    },
                ),
            );
        }
        if padding.len() > MAX_PADDING_SIZE {
            return Err(
                LlpError::PacketError(
                    PacketError::InvalidPaddingSize { size: padding.len(), max: MAX_PADDING_SIZE },
                ),
            );
        }
        if auth_tag.len() != AUTH_TAG_SIZE {
            return Err(
                LlpError::CryptoError(
                    CryptoError::InvalidAuthTagSize {
                        expected: AUTH_TAG_SIZE,
                        actual: auth_tag.len(),
                    },
                ),
            );
        }
        Ok(LlpPacket { header, encrypted_payload, padding, auth_tag })
    }

    /// The packet's size on the wire.
    pub fn total_size(&self) -> (r: usize)
        requires
            self.encrypted_payload@.len() + self.padding@.len() + MIN_PACKET_SIZE <= usize::MAX,
        ensures
            r == self.encrypted_payload@.len() + self.padding@.len() + MIN_PACKET_SIZE,
    {
        HEADER_SIZE + self.encrypted_payload.len() + self.padding.len() + AUTH_TAG_SIZE
    }

    /// Serialize the packet, recomputing the header's length fields from the
    /// actual payload and padding.
    pub fn serialize(&self) -> (r: Result<Vec<u8>, LlpError>)
        requires
            self.encrypted_payload@.len() + self.padding@.len() + MIN_PACKET_SIZE <= usize::MAX,
        ensures
            self.encrypted_payload@.len() + self.padding@.len() + MIN_PACKET_SIZE
                > MAX_PACKET_SIZE ==> r == Err::<Vec<u8>, _>(
                LlpError::PacketError(
                    PacketError::PacketTooLarge {
                        size: (self.encrypted_payload@.len() + self.padding@.len()
                            + MIN_PACKET_SIZE) as usize,
                        max: MAX_PACKET_SIZE,
                    },
                ),
            ),
            self.encrypted_payload@.len() + self.padding@.len() + MIN_PACKET_SIZE
                <= MAX_PACKET_SIZE ==> (r matches Ok(v) && v@ == spec_packet_bytes(*self)),
    {
        let total = self.total_size();
        if total > MAX_PACKET_SIZE {
            return Err(
                LlpError::PacketError(
                    PacketError::PacketTooLarge { size: total, max: MAX_PACKET_SIZE },
                ),
            );
        }
        let wire_header = PacketHeader {
            version: self.header.version,
            flags: self.header.flags,
            payload_length: self.encrypted_payload.len() as u16,
            session_id: self.header.session_id,
            sequence_number: self.header.sequence_number,
            timestamp: self.header.timestamp,
            mimicry_profile: self.header.mimicry_profile,
            padding_length: self.padding.len() as u16,
        };
        let mut buf: Vec<u8> = Vec::new();
        wire_header.serialize(&mut buf);
        buf.extend_from_slice(self.encrypted_payload.as_slice());
        buf.extend_from_slice(self.padding.as_slice());
        buf.extend_from_slice(self.auth_tag.as_slice());
        assert(buf@ =~= spec_packet_bytes(*self));
        Ok(buf)
    }

    /// Parse a packet; the buffer must hold exactly what the header declares.
    pub fn deserialize(data: &[u8]) -> (r: Result<LlpPacket, LlpError>)
        ensures
            data@.len() < MIN_PACKET_SIZE ==> r == Err::<LlpPacket, _>(
                LlpError::PacketError(
                    PacketError::InvalidPacketSize {
                        expected: MIN_PACKET_SIZE,
                        actual: data@.len() as usize,
                    },
                ),
            ),
            data@.len() >= MIN_PACKET_SIZE && spec_parse_header(data@) is Err ==> r == Err::<
                LlpPacket,
                _,
            >(spec_parse_header(data@)->Err_0),
            data@.len() >= MIN_PACKET_SIZE && spec_parse_header(data@) is Ok ==> ({
                let h = spec_parse_header(data@)->Ok_0;
                if data@.len() != MIN_PACKET_SIZE + h.payload_length + h.padding_length {
                    r == Err::<LlpPacket, LlpError>(
                        LlpError::PacketError(
                            PacketError::InvalidPacketSize {
                                expected: (MIN_PACKET_SIZE + h.payload_length
                                    + h.padding_length) as usize,
                                actual: data@.len() as usize,
                            },
                        ),
                    )
                } else {
                    r is Ok && {
                        let p = r->Ok_0;
                        &&& p.header == h
                        &&& p.encrypted_payload@ == data@.subrange(
                            HEADER_SIZE as int,
                            HEADER_SIZE + h.payload_length,
                        )
                        &&& p.padding@ == data@.subrange(
                            HEADER_SIZE + h.payload_length,
                            HEADER_SIZE + h.payload_length + h.padding_length,
                        )
                        &&& p.auth_tag@ == data@.subrange(
                            data@.len() - AUTH_TAG_SIZE,
                            data@.len() as int,
                        )
                    }
                }
            }),
    {
        if data.len() < MIN_PACKET_SIZE {
            return Err(
                LlpError::PacketError(
                    PacketError::InvalidPacketSize {
                        expected: MIN_PACKET_SIZE,
                        actual: data.len(),
                    },
                ),
            );
        }
        let header = match PacketHeader::deserialize(data) {
            Ok(h) => h,
            Err(e) => {
                return Err(e);
            },
        };
        let expected_size = MIN_PACKET_SIZE + header.payload_length as usize
            + header.padding_length as usize;
        if data.len() != expected_size {
            return Err(
                LlpError::PacketError(
                    PacketError::InvalidPacketSize { expected: expected_size, actual: data.len() },
                ),
            );
        }
        let payload_end = HEADER_SIZE + header.payload_length as usize;
        let padding_end = payload_end + header.padding_length as usize;
        let encrypted_payload = slice_to_vec(slice_subrange(data, HEADER_SIZE, payload_end));
        let padding = slice_to_vec(slice_subrange(data, payload_end, padding_end));
        let auth_tag = slice_to_vec(slice_subrange(data, padding_end, data.len()));
        Ok(LlpPacket { header, encrypted_payload, padding, auth_tag })
    }

    /// Whether the packet carries data.
    pub fn is_data(&self) -> (r: bool)
        ensures
            r == (self.header.flags & FLAG_DATA != 0),
    {
        self.header.flags & FLAG_DATA != 0
    }

    /// Whether the packet carries control information.
    pub fn is_control(&self) -> (r: bool)
        ensures
            r == (self.header.flags & FLAG_CONTROL != 0),
    {
        self.header.flags & FLAG_CONTROL != 0
    }

    /// Whether the packet is a fragment.
    pub fn is_fragment(&self) -> (r: bool)
        ensures
            r == (self.header.flags & FLAG_FRAGMENT != 0),
    {
        self.header.flags & FLAG_FRAGMENT != 0
    }

    /// Whether the packet is the last fragment: it carries both the fragment
    /// flag and the last-fragment flag.
    pub fn is_last_fragment(&self) -> (r: bool)
        ensures
            r == (self.header.flags & (FLAG_FRAGMENT | FLAG_LAST_FRAG) == (FLAG_FRAGMENT
                | FLAG_LAST_FRAG)),
    {
        self.header.flags & (FLAG_FRAGMENT | FLAG_LAST_FRAG) == (FLAG_FRAGMENT | FLAG_LAST_FRAG)
    }

    /// Whether the packet is a keepalive.
    pub fn is_keepalive(&self) -> (r: bool)
        ensures
            r == (self.header.flags & FLAG_KEEPALIVE != 0),
    {
        self.header.flags & FLAG_KEEPALIVE != 0
    }

    /// Whether the packet requests a rekey.
    pub fn is_rekey(&self) -> (r: bool)
        ensures
            r == (self.header.flags & FLAG_REKEY != 0),
    {
        self.header.flags & FLAG_REKEY != 0
    }
}

/// A valid packet parses back from its own bytes: the wire header and every
/// body component come out as they went in.
pub proof fn lemma_packet_round_trip(p: LlpPacket)
    requires
        packet_valid(p),
    ensures
        spec_packet_bytes(p).len() == MIN_PACKET_SIZE + p.encrypted_payload@.len()
            + p.padding@.len(),
        spec_parse_header(spec_packet_bytes(p)) == Ok::<PacketHeader, LlpError>(
            spec_wire_header(p),
        ),
        spec_packet_bytes(p).subrange(
            HEADER_SIZE as int,
            HEADER_SIZE + p.encrypted_payload@.len(),
        ) == p.encrypted_payload@,
        spec_packet_bytes(p).subrange(
            HEADER_SIZE + p.encrypted_payload@.len(),
            HEADER_SIZE + p.encrypted_payload@.len() + p.padding@.len(),
        ) == p.padding@,
        spec_packet_bytes(p).subrange(
            spec_packet_bytes(p).len() - AUTH_TAG_SIZE,
            spec_packet_bytes(p).len() as int,
        ) == p.auth_tag@,
{
    let w = spec_wire_header(p);
    let hb = spec_header_bytes(w);
    let b = spec_packet_bytes(p);
    lemma_header_bytes_index(w);
    assert(header_valid(w));
    lemma_header_round_trip(w);
    assert forall|i: int| 0 <= i < 24 implies b[i] == hb[i] by {
        assert(b[i] == (hb + p.encrypted_payload@)[i]);
    }
    assert(spec_parse_header(b) == spec_parse_header(hb));
    assert(b.subrange(HEADER_SIZE as int, HEADER_SIZE + p.encrypted_payload@.len())
        =~= p.encrypted_payload@);
    assert(b.subrange(
        HEADER_SIZE + p.encrypted_payload@.len(),
        HEADER_SIZE + p.encrypted_payload@.len() + p.padding@.len(),
    ) =~= p.padding@);
    assert(b.subrange(b.len() - AUTH_TAG_SIZE, b.len() as int) =~= p.auth_tag@);
}

} // verus!
