//! Helpers around raw IP datagrams: reading addresses and protocol from a
//! packet, the server's VPN address assignment, the datagram-transport
//! counter check, and the blocked-domain matcher for selective bypass.

use vstd::prelude::*;
use vstd::slice::slice_to_vec;
use vstd::string::StringSliceAdditionalSpecFns;

use crate::mimicry::http::push_str_bytes;

verus! {

/// An IP address read out of a raw datagram.
#[derive(Clone, Debug, PartialEq, Eq)]
pub enum IpDest {
    /// An IPv4 address, one field per octet.
    V4 { a: u8, b: u8, c: u8, d: u8 },
    /// An IPv6 address as its 16 bytes.
    V6 { bytes: Vec<u8> },
}

/// The IP version nibble of a datagram, if it has any bytes.
pub fn ip_version(packet: &[u8]) -> (r: Option<u8>)
    ensures
        packet@.len() == 0 ==> r is None,
        packet@.len() > 0 ==> r == Some((packet@[0] >> 4) & 0x0F),
{
    if packet.len() == 0 {
        return None;
    }
    Some((packet[0] >> 4) & 0x0F)
}

/// The protocol byte of an IPv4 datagram: 6 for TCP, 17 for UDP.
pub fn extract_protocol(packet: &[u8]) -> (r: Option<u8>)
    ensures
        packet@.len() < 20 ==> r is None,
        packet@.len() >= 20 ==> r == Some(packet@[9]),
{
    if packet.len() < 20 {
        return None;
    }
    Some(packet[9])
}

/// The source address of an IPv4 datagram: bytes 12 to 15.
pub fn extract_src_ip(packet: &[u8]) -> (r: Option<IpDest>)
    ensures
        packet@.len() < 20 ==> r is None,
        packet@.len() >= 20 ==> (r matches Some(ip) && ip == (IpDest::V4 {
            a: packet@[12],
            b: packet@[13],
            c: packet@[14],
            d: packet@[15],
        })),
{
    if packet.len() < 20 {
        return None;
    }
    Some(IpDest::V4 { a: packet[12], b: packet[13], c: packet[14], d: packet[15] })
}

/// The destination address of a datagram: bytes 16 to 19 of an IPv4
/// header, bytes 24 to 39 of an IPv6 header; anything else yields nothing.
pub fn extract_dst_ip(packet: &[u8]) -> (r: Option<IpDest>)
    ensures
        packet@.len() < 20 ==> r is None,
        packet@.len() >= 20 && (packet@[0] >> 4) & 0x0F == 4 ==> (r matches Some(ip) && ip == (
        IpDest::V4 { a: packet@[16], b: packet@[17], c: packet@[18], d: packet@[19] })),
        packet@.len() >= 20 && (packet@[0] >> 4) & 0x0F == 6 ==> ({
            if packet@.len() < 40 {
                r is None
            } else {
                r matches Some(ip) && (ip matches IpDest::V6 { bytes } && bytes@
                    == packet@.subrange(24, 40))
            }
        }),
        packet@.len() >= 20 && (packet@[0] >> 4) & 0x0F != 4 && (packet@[0] >> 4) & 0x0F != 6
            ==> r is None,
{
    if packet.len() < 20 {
        return None;
    }
    let version = (packet[0] >> 4) & 0x0F;
    if version == 4 {
        Some(IpDest::V4 { a: packet[16], b: packet[17], c: packet[18], d: packet[19] })
    } else if version == 6 {
        if packet.len() < 40 {
            return None;
        }
        let bytes = slice_to_vec(vstd::slice::slice_subrange(packet, 24, 40));
        Some(IpDest::V6 { bytes })
    } else {
        None
    }
}

/// The host octet the server assigns a session inside its /24:
/// `2 + session_id mod 253`, so addresses range over `.2` to `.254`.
pub fn vpn_host_octet(session_id: u64) -> (r: u8)
    ensures
        r == 2 + (session_id % 253),
        2 <= r <= 254,
{
    (2 + (session_id % 253)) as u8
}

/// The datagram transport's monotonic counter check: a datagram counted
/// below what was already seen is dropped; an accepted one moves the
/// expectation past its counter.
pub fn accept_datagram_counter(receive_counter: &mut u64, nonce_counter: u64) -> (r: bool)
    ensures
        r == (nonce_counter >= *old(receive_counter)),
        r ==> *final(receive_counter) == (if nonce_counter < u64::MAX {
            (nonce_counter + 1) as u64
        } else {
            u64::MAX
        }),
        !r ==> *final(receive_counter) == *old(receive_counter),
{
    if nonce_counter < *receive_counter {
        return false;
    }
    if nonce_counter < u64::MAX {
        *receive_counter = nonce_counter + 1;
    } else {
        *receive_counter = u64::MAX;
    }
    true
}

/// Whether two byte strings are equal.
fn bytes_eq(a: &[u8], b: &[u8]) -> (r: bool)
    ensures
        r == (a@ =~= b@),
{
    if a.len() != b.len() {
        return false;
    }
    let mut i: usize = 0;
    while i < a.len()
        invariant
            i <= a@.len(),
            a@.len() == b@.len(),
            forall|k: int| 0 <= k < i ==> a@[k] == b@[k],
        decreases a@.len() - i,
    {
        if a[i] != b[i] {
            return false;
        }
        i = i + 1;
    }
    assert(a@ =~= b@);
    true
}

/// Whether `domain` names `entry` itself or a subdomain of it: equal, or
/// ending in a dot followed by `entry`.
pub open spec fn domain_matches(domain: Seq<u8>, entry: Seq<u8>) -> bool {
    ||| domain == entry
    ||| (domain.len() > entry.len() && domain.skip(domain.len() - entry.len()) == entry && domain[
        domain.len() - entry.len() - 1
    ] == 0x2e)
}

/// Whether `domain` matches one entry, as [`domain_matches`] says.
fn matches_entry(domain: &[u8], entry: &[u8]) -> (r: bool)
    ensures
        r == domain_matches(domain@, entry@),
{
    if bytes_eq(domain, entry) {
        return true;
    }
    if domain.len() > entry.len() {
        let offset = domain.len() - entry.len();
        if domain[offset - 1] == 0x2e {
            let tail = vstd::slice::slice_subrange(domain, offset, domain.len());
            if bytes_eq(tail, entry) {
                return true;
            }
        }
    }
    assert(!domain_matches(domain@, entry@));
    false
}

/// The domains whose traffic is selectively routed around inspection.
pub struct DpiBypassList {
    blocked_domains: Vec<Vec<u8>>,
}

impl DpiBypassList {
    /// The stored entries, for contracts.
    pub closed spec fn spec_domains(&self) -> Seq<Seq<u8>> {
        self.blocked_domains@.map_values(|d: Vec<u8>| d@)
    }

    /// An empty list.
    pub fn new() -> (r: DpiBypassList)
        ensures
            r.spec_domains().len() == 0,
    {
        DpiBypassList { blocked_domains: Vec::new() }
    }

    /// Add one blocked domain.
    pub fn add(&mut self, domain: &str)
        ensures
            final(self).spec_domains() == old(self).spec_domains().push(domain.spec_bytes()),
    {
        let mut entry: Vec<u8> = Vec::new();
        push_str_bytes(&mut entry, domain);
        self.blocked_domains.push(entry);
        assert(self.spec_domains() =~= old(self).spec_domains().push(domain.spec_bytes()));
    }

    /// How many domains are listed.
    pub fn len(&self) -> (r: usize)
        ensures
            r == self.spec_domains().len(),
    {
        self.blocked_domains.len()
    }

    /// Whether this domain, or any domain it is a subdomain of, is listed.
    pub fn needs_bypass(&self, domain: &[u8]) -> (r: bool)
        ensures
            r == exists|i: int|
                0 <= i < self.spec_domains().len() && domain_matches(
                    domain@,
                    self.spec_domains()[i],
                ),
    {
        let mut i: usize = 0;
        while i < self.blocked_domains.len()
            invariant
                i <= self.spec_domains().len(),
                self.spec_domains().len() == self.blocked_domains@.len(),
                forall|k: int|
                    0 <= k < i ==> !domain_matches(domain@, self.spec_domains()[k]),
            decreases self.spec_domains().len() - i,
        {
            if matches_entry(domain, self.blocked_domains[i].as_slice()) {
                assert(domain_matches(domain@, self.spec_domains()[i as int]));
                return true;
            }
            i = i + 1;
        }
        false
    }
}

} // verus!
