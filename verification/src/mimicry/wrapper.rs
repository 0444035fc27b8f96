//! Wrapping packets in mimicry and unwrapping them again.
//!
//! For the plain profile the wire carries the packet bytes as they are; for
//! every other profile the packet becomes the body of an HTTP response.
//! Unwrapping what wrap produced always gives the packet back —
//! [`lemma_mimicry_round_trip`] is that statement.

use vstd::prelude::*;
use vstd::slice::slice_to_vec;

use crate::errors::MimicryError;
use crate::mimicry::http::{head_wf, spec_body_start, unwrap_http, lemma_unwrap_after_wrap};
use crate::mimicry::profiles::rutube::RuTubeProfile;
use crate::mimicry::profiles::vk_video::{wrapped_ok, VkVideoProfile};
use crate::mimicry::profiles::yandex_music::YandexMusicProfile;
use crate::packet::MimicryProfile;

verus! {

/// The round trip of the mimicry layer: whatever the wrapped message's
/// head, unwrapping a well-formed head followed by a non-empty body yields
/// exactly the body.
///
/// For all wrapped byte strings `w` and payloads `x`: if `w` is a head
/// followed by `x`, then parsing `w` finds the body at the head's end and
/// returns `x`.
pub proof fn lemma_mimicry_round_trip(w: Seq<u8>, x: Seq<u8>)
    requires
        w.len() >= x.len(),
        head_wf(w.take(w.len() - x.len())),
        w.skip(w.len() - x.len()) == x,
        x.len() >= 1,
    ensures
        spec_body_start(w) == Some(w.len() - x.len()),
        w.skip(w.len() - x.len()) == x,
{
    let head = w.take(w.len() - x.len());
    lemma_unwrap_after_wrap(head, x);
    assert(head + x =~= w);
}

/// The per-profile wrapping state.
enum WrapperProfile {
    /// No mimicry.
    Plain,
    /// VK Video.
    VkVideo(VkVideoProfile),
    /// Yandex Music.
    YandexMusic(YandexMusicProfile),
    /// RuTube.
    RuTube(RuTubeProfile),
}

impl WrapperProfile {
    /// The pacing and dressing state is sound, and its delays stay below
    /// a second.
    pub closed spec fn wf(&self) -> bool {
        match self {
            WrapperProfile::Plain => true,
            WrapperProfile::VkVideo(p) => p.wf() && p.spec_timing().max_delay_ms <= 1000,
            WrapperProfile::YandexMusic(p) => p.wf() && p.spec_timing().max_delay_ms <= 1000,
            WrapperProfile::RuTube(p) => p.wf() && p.spec_timing().max_delay_ms <= 1000,
        }
    }

    /// Which profile this is.
    pub closed spec fn spec_profile(&self) -> MimicryProfile {
        match self {
            WrapperProfile::Plain => MimicryProfile::Plain,
            WrapperProfile::VkVideo(_) => MimicryProfile::VkVideo,
            WrapperProfile::YandexMusic(_) => MimicryProfile::YandexMusic,
            WrapperProfile::RuTube(_) => MimicryProfile::RuTube,
        }
    }
}

/// Wraps serialized packets in the negotiated mimicry profile and counts
/// the chunks it has produced.
pub struct PacketWrapper {
    profile: WrapperProfile,
    chunk_counter: u64,
}

impl PacketWrapper {
    /// Which profile this wrapper serves, for contracts.
    pub closed spec fn spec_profile(&self) -> MimicryProfile {
        self.profile.spec_profile()
    }

    /// How many chunks were wrapped, for contracts.
    pub closed spec fn spec_chunk_counter(&self) -> u64 {
        self.chunk_counter
    }

    /// The wrapper's invariant.
    pub closed spec fn wf(&self) -> bool {
        self.profile.wf()
    }

    /// A wrapper for the chosen profile, its chunk counter at zero.
    pub fn new(profile: MimicryProfile) -> (r: PacketWrapper)
        ensures
            r.wf(),
            r.spec_profile() == profile,
            r.spec_chunk_counter() == 0,
    {
        let wrapper_profile = match profile {
            MimicryProfile::Plain => WrapperProfile::Plain,
            MimicryProfile::VkVideo => WrapperProfile::VkVideo(VkVideoProfile::new()),
            MimicryProfile::YandexMusic => WrapperProfile::YandexMusic(YandexMusicProfile::new()),
            MimicryProfile::RuTube => WrapperProfile::RuTube(RuTubeProfile::new()),
        };
        PacketWrapper { profile: wrapper_profile, chunk_counter: 0 }
    }

    /// Wrap a serialized packet. The plain profile returns it unchanged;
    /// every other profile frames it as the body of an HTTP response and
    /// counts one more chunk.
    pub fn wrap(&mut self, packet_data: &[u8]) -> (r: Result<Vec<u8>, MimicryError>)
        requires
            old(self).wf(),
            packet_data@.len() <= 0xFFFFFFFF,
        ensures
            final(self).wf(),
            final(self).spec_profile() == old(self).spec_profile(),
            r is Ok,
            old(self).spec_profile() == MimicryProfile::Plain ==> (r matches Ok(w) && w@
                == packet_data@ && *final(self) == *old(self)),
            old(self).spec_profile() != MimicryProfile::Plain ==> (r matches Ok(w) && wrapped_ok(
                w@,
                packet_data@,
            ) && final(self).spec_chunk_counter() == (if old(self).spec_chunk_counter()
                < u64::MAX {
                (old(self).spec_chunk_counter() + 1) as u64
            } else {
                old(self).spec_chunk_counter()
            })),
    {
        match &mut self.profile {
            WrapperProfile::Plain => Ok(slice_to_vec(packet_data)),
            WrapperProfile::VkVideo(profile) => {
                let response = profile.generate_response(packet_data);
                if self.chunk_counter < u64::MAX {
                    self.chunk_counter = self.chunk_counter + 1;
                }
                Ok(response)
            },
            WrapperProfile::YandexMusic(profile) => {
                let response = profile.generate_response(packet_data);
                if self.chunk_counter < u64::MAX {
                    self.chunk_counter = self.chunk_counter + 1;
                }
                Ok(response)
            },
            WrapperProfile::RuTube(profile) => {
                let response = profile.generate_response(packet_data);
                if self.chunk_counter < u64::MAX {
                    self.chunk_counter = self.chunk_counter + 1;
                }
                Ok(response)
            },
        }
    }

    /// Unwrap a received message. The plain profile returns it unchanged;
    /// every other profile parses it as HTTP and returns the body.
    pub fn unwrap(&self, wrapped_data: &[u8]) -> (r: Result<Vec<u8>, MimicryError>)
        requires
            self.wf(),
        ensures
            self.spec_profile() == MimicryProfile::Plain ==> (r matches Ok(w) && w@
                == wrapped_data@),
            self.spec_profile() != MimicryProfile::Plain ==> ({
                if spec_body_start(wrapped_data@) is None {
                    r == Err::<Vec<u8>, MimicryError>(MimicryError::ParseError)
                } else {
                    let n = spec_body_start(wrapped_data@).unwrap();
                    if n >= wrapped_data@.len() {
                        r == Err::<Vec<u8>, MimicryError>(MimicryError::InvalidFormat)
                    } else {
                        r matches Ok(body) && body@ == wrapped_data@.skip(n)
                    }
                }
            }),
    {
        match &self.profile {
            WrapperProfile::Plain => Ok(slice_to_vec(wrapped_data)),
            WrapperProfile::VkVideo(_) => unwrap_http(wrapped_data),
            WrapperProfile::YandexMusic(_) => unwrap_http(wrapped_data),
            WrapperProfile::RuTube(_) => unwrap_http(wrapped_data),
        }
    }

    /// The recommended delay before the next packet, in milliseconds; zero
    /// for the plain profile.
    pub fn next_packet_timing(&mut self) -> (d: u64)
        requires
            old(self).wf(),
        ensures
            *final(self) == *old(self),
            d <= 1000,
    {
        match &mut self.profile {
            WrapperProfile::Plain => 0,
            WrapperProfile::VkVideo(profile) => profile.next_packet_timing(),
            WrapperProfile::YandexMusic(profile) => profile.next_packet_timing(),
            WrapperProfile::RuTube(profile) => profile.next_packet_timing(),
        }
    }

    /// The recommended chunk size for this profile's traffic.
    pub fn recommended_chunk_size(&mut self) -> (r: usize)
        requires
            old(self).wf(),
        ensures
            *final(self) == *old(self),
            old(self).spec_profile() == MimicryProfile::Plain ==> r == 1048576,
            old(self).spec_profile() == MimicryProfile::VkVideo ==> 65536 <= r < 262144,
            old(self).spec_profile() == MimicryProfile::YandexMusic ==> 16384 <= r < 65536,
            old(self).spec_profile() == MimicryProfile::RuTube ==> 65536 <= r < 262144,
    {
        match &mut self.profile {
            WrapperProfile::Plain => 1048576,
            WrapperProfile::VkVideo(profile) => profile.recommended_chunk_size(),
            WrapperProfile::YandexMusic(profile) => profile.recommended_chunk_size(),
            WrapperProfile::RuTube(profile) => profile.recommended_chunk_size(),
        }
    }

    /// Emit a cover request for this profile; empty for the plain profile,
    /// a complete HTTP request head for every other.
    pub fn generate_request(&mut self) -> (r: Result<Vec<u8>, MimicryError>)
        requires
            old(self).wf(),
        ensures
            final(self).wf(),
            final(self).spec_profile() == old(self).spec_profile(),
            final(self).spec_chunk_counter() == old(self).spec_chunk_counter(),
            r is Ok,
            old(self).spec_profile() == MimicryProfile::Plain ==> r->Ok_0@.len() == 0,
            old(self).spec_profile() != MimicryProfile::Plain ==> (r matches Ok(req) && head_wf(
                req@,
            ) && req@.len() >= 4 && req@.subrange(0, 4)
                == crate::mimicry::http::spec_get_prefix()),
    {
        let counter = self.chunk_counter;
        match &mut self.profile {
            WrapperProfile::Plain => Ok(Vec::new()),
            WrapperProfile::VkVideo(profile) => Ok(profile.generate_request(counter)),
            WrapperProfile::YandexMusic(profile) => Ok(profile.generate_request(counter)),
            WrapperProfile::RuTube(profile) => Ok(profile.generate_request(counter, 0)),
        }
    }

    /// How many chunks this wrapper has produced.
    pub fn chunk_counter(&self) -> (r: u64)
        ensures
            r == self.spec_chunk_counter(),
    {
        self.chunk_counter
    }
}

/// Stateless one-shot wrapping and unwrapping.
pub struct QuickWrapper;

impl QuickWrapper {
    /// Wrap once, without keeping state.
    pub fn wrap(profile: MimicryProfile, packet_data: &[u8]) -> (r: Result<Vec<u8>, MimicryError>)
        requires
            packet_data@.len() <= 0xFFFFFFFF,
        ensures
            r is Ok,
            profile == MimicryProfile::Plain ==> (r matches Ok(w) && w@ == packet_data@),
            profile != MimicryProfile::Plain ==> (r matches Ok(w) && wrapped_ok(w@, packet_data@)),
    {
        let mut wrapper = PacketWrapper::new(profile);
        wrapper.wrap(packet_data)
    }

    /// Unwrap once, without keeping state.
    pub fn unwrap(profile: MimicryProfile, wrapped_data: &[u8]) -> (r: Result<Vec<u8>, MimicryError>)
        ensures
            profile == MimicryProfile::Plain ==> (r matches Ok(w) && w@ == wrapped_data@),
            profile != MimicryProfile::Plain ==> ({
                if spec_body_start(wrapped_data@) is None {
                    r == Err::<Vec<u8>, MimicryError>(MimicryError::ParseError)
                } else {
                    let n = spec_body_start(wrapped_data@).unwrap();
                    if n >= wrapped_data@.len() {
                        r == Err::<Vec<u8>, MimicryError>(MimicryError::InvalidFormat)
                    } else {
                        r matches Ok(body) && body@ == wrapped_data@.skip(n)
                    }
                }
            }),
    {
        let wrapper = PacketWrapper::new(profile);
        wrapper.unwrap(wrapped_data)
    }
}

} // verus!
