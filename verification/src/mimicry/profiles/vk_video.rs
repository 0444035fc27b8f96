//! The VK Video profile: wraps ciphertext as an HTTP 206 response carrying
//! a video chunk, and emits matching chunk requests.

use vstd::prelude::*;

use crate::errors::MimicryError;
use crate::mimicry::http::{
    find_body_start, head_finish, head_wf, line_ok_bytes, seq_contains_at, spec_body_start,
    spec_content_length_line, spec_get_prefix, spec_http11_prefix, unwrap_http,
};
use crate::mimicry::profiles::{
    append_prefixed_line, append_static_line, dec_bytes, hex_token, http_date_now,
};
use crate::mimicry::timing::{random_below, TimingProfile};
use vstd::slice::{slice_subrange, slice_to_vec};

verus! {

/// What a response head promises beyond being a head: it opens with
/// `HTTP/1.1 ` and announces the body's length.
pub open spec fn response_head_ok(head: Seq<u8>, body_len: u64) -> bool {
    &&& head_wf(head)
    &&& head.len() >= 9
    &&& head.subrange(0, 9) == spec_http11_prefix()
    &&& exists|i: int| seq_contains_at(head, spec_content_length_line(body_len), i)
}

/// What every profile's wrap guarantees: the result is a well-formed
/// response head followed by the payload, verbatim.
pub open spec fn wrapped_ok(r: Seq<u8>, payload: Seq<u8>) -> bool {
    &&& r.len() >= payload.len() + 4
    &&& response_head_ok(r.take(r.len() - payload.len()), payload.len() as u64)
    &&& r.skip(r.len() - payload.len()) == payload
}

/// The VK Video impersonation profile.
pub struct VkVideoProfile {
    timing: TimingProfile,
}

impl VkVideoProfile {
    /// The pacing model, for contracts.
    pub closed spec fn spec_timing(&self) -> TimingProfile {
        self.timing
    }

    /// A profile with a sound pacing model.
    pub open spec fn wf(&self) -> bool {
        self.spec_timing().wf()
    }

    /// A fresh profile with video-streaming pacing.
    pub fn new() -> (r: VkVideoProfile)
        ensures
            r.wf(),
            r.spec_timing() == (TimingProfile {
                min_delay_ms: 10,
                max_delay_ms: 100,
                burst_percent: 70,
                burst_size: 5,
            }),
    {
        VkVideoProfile { timing: TimingProfile::video_streaming() }
    }

    /// Wrap a payload as an HTTP 206 video-chunk response: realistic
    /// headers with fresh random dressing, then the payload as the body.
    #[verifier::rlimit(100)]
    pub fn generate_response(&mut self, encrypted_payload: &[u8]) -> (r: Vec<u8>)
        requires
            encrypted_payload@.len() <= 0xFFFFFFFF,
        ensures
            wrapped_ok(r@, encrypted_payload@),
            *final(self) == *old(self),
    {
        let payload_len = encrypted_payload.len() as u64;
        let mut head: Vec<u8> = Vec::new();
        proof {
            reveal_strlit("HTTP/1.1 206 Partial Content");
        }
        append_static_line(&mut head, "HTTP/1.1 206 Partial Content");
        let ghost h1 = head@;
        proof {
            vstd::string::is_ascii_spec_bytes("HTTP/1.1 206 Partial Content");
            assert(h1.subrange(0, 9) =~= spec_http11_prefix());
        }
        proof {
            reveal_strlit("Server: nginx/1.20.2");
        }
        append_static_line(&mut head, "Server: nginx/1.20.2");
        proof {
            reveal_strlit("Content-Type: video/mp2t");
        }
        append_static_line(&mut head, "Content-Type: video/mp2t");
        proof {
            reveal_strlit("Connection: keep-alive");
        }
        append_static_line(&mut head, "Connection: keep-alive");
        proof {
            reveal_strlit("X-VK-Server: vkvideo42");
        }
        append_static_line(&mut head, "X-VK-Server: vkvideo42");
        proof {
            reveal_strlit("Accept-Ranges: bytes");
        }
        append_static_line(&mut head, "Accept-Ranges: bytes");
        proof {
            reveal_strlit("Cache-Control: public, max-age=31536000");
        }
        append_static_line(&mut head, "Cache-Control: public, max-age=31536000");
        proof {
            reveal_strlit("Access-Control-Allow-Origin: https://vk.com");
        }
        append_static_line(&mut head, "Access-Control-Allow-Origin: https://vk.com");
        let date = http_date_now();
        proof {
            reveal_strlit("Date: ");
            assert(line_ok_bytes(date@));
        }
        append_prefixed_line(&mut head, "Date: ", date.as_slice());
        let range_start = random_below(10000000);
        let range_end = range_start + payload_len;
        let mut range_val = dec_bytes(range_start);
        proof {
            reveal_strlit("-");
            crate::mimicry::http::lemma_ascii_line_ok("-");
        }
        crate::mimicry::http::push_str_bytes(&mut range_val, "-");
        let range_end_dec = dec_bytes(range_end);
        range_val.extend_from_slice(range_end_dec.as_slice());
        proof {
            reveal_strlit("/50000000");
            crate::mimicry::http::lemma_ascii_line_ok("/50000000");
        }
        crate::mimicry::http::push_str_bytes(&mut range_val, "/50000000");
        proof {
            assert(line_ok_bytes(range_val@));
            reveal_strlit("Content-Range: bytes ");
        }
        append_prefixed_line(&mut head, "Content-Range: bytes ", range_val.as_slice());
        let token = hex_token(16);
        proof {
            reveal_strlit("X-VK-Session: ");
        }
        append_prefixed_line(&mut head, "X-VK-Session: ", token.as_slice());
        let ghost cl_pos = head@.len();
        let cl_value = dec_bytes(payload_len);
        proof {
            reveal_strlit("Content-Length: ");
        }
        append_prefixed_line(&mut head, "Content-Length: ", cl_value.as_slice());
        let ghost after_cl = head@;
        proof {
            reveal_strlit("Content-Length: ");
            vstd::string::is_ascii_spec_bytes("Content-Length: ");
            assert(after_cl.subrange(cl_pos as int, after_cl.len() as int) =~= spec_content_length_line(
                payload_len,
            ));
        }
        head_finish(&mut head);
        let ghost hd = head@;
        proof {
            assert(hd.subrange(cl_pos as int, after_cl.len() as int) =~= after_cl.subrange(
                cl_pos as int,
                after_cl.len() as int,
            ));
            assert(seq_contains_at(hd, spec_content_length_line(payload_len), cl_pos as int));
            assert(hd.subrange(0, 9) =~= h1.subrange(0, 9));
        }
        let mut out = head;
        out.extend_from_slice(encrypted_payload);
        proof {
            assert(out@.take(hd.len() as int) =~= hd);
            assert(out@.skip(hd.len() as int) =~= encrypted_payload@);
        }
        out
    }

    /// Emit a plausible chunk request for bidirectional cover traffic.
    #[verifier::rlimit(100)]
    pub fn generate_request(&mut self, chunk_id: u64) -> (r: Vec<u8>)
        ensures
            head_wf(r@),
            r@.len() >= 4,
            r@.subrange(0, 4) == spec_get_prefix(),
            *final(self) == *old(self),
    {
        let quality: u64 = match random_below(5) {
            0 => 240,
            1 => 360,
            2 => 480,
            3 => 720,
            _ => 1080,
        };
        let mut target = dec_bytes(chunk_id);
        proof {
            reveal_strlit("_");
            crate::mimicry::http::lemma_ascii_line_ok("_");
        }
        crate::mimicry::http::push_str_bytes(&mut target, "_");
        let qd = dec_bytes(quality);
        target.extend_from_slice(qd.as_slice());
        proof {
            reveal_strlit(".ts HTTP/1.1");
            crate::mimicry::http::lemma_ascii_line_ok(".ts HTTP/1.1");
        }
        crate::mimicry::http::push_str_bytes(&mut target, ".ts HTTP/1.1");
        let mut head: Vec<u8> = Vec::new();
        proof {
            assert(line_ok_bytes(target@));
            reveal_strlit("GET /video/chunk_");
        }
        append_prefixed_line(&mut head, "GET /video/chunk_", target.as_slice());
        let ghost h1 = head@;
        proof {
            vstd::string::is_ascii_spec_bytes("GET /video/chunk_");
            assert(h1.subrange(0, 4) =~= spec_get_prefix());
        }
        proof {
            reveal_strlit("Host: vkvideo.ru");
        }
        append_static_line(&mut head, "Host: vkvideo.ru");
        let ua: &str = match random_below(3) {
            0 => "VKClient/8.34 (Android 13; SDK 33; Samsung SM-G991B; ru)",
            1 => "VKClient/8.33 (iOS 16.5; iPhone14,2; Scale/3.00)",
            _ => "VKDesktop/5.4.2 (Windows 10.0.19045)",
        };
        proof {
            reveal_strlit("VKClient/8.34 (Android 13; SDK 33; Samsung SM-G991B; ru)");
            reveal_strlit("VKClient/8.33 (iOS 16.5; iPhone14,2; Scale/3.00)");
            reveal_strlit("VKDesktop/5.4.2 (Windows 10.0.19045)");
            reveal_strlit("User-Agent: ");
            crate::mimicry::http::lemma_ascii_line_ok(ua);
        }
        append_prefixed_line(&mut head, "User-Agent: ", ua.as_bytes());
        proof {
            reveal_strlit("Accept: */*");
        }
        append_static_line(&mut head, "Accept: */*");
        proof {
            reveal_strlit("Accept-Encoding: gzip, deflate");
        }
        append_static_line(&mut head, "Accept-Encoding: gzip, deflate");
        proof {
            reveal_strlit("Connection: keep-alive");
        }
        append_static_line(&mut head, "Connection: keep-alive");
        let token = hex_token(8);
        proof {
            reveal_strlit("X-VK-Session: ");
        }
        append_prefixed_line(&mut head, "X-VK-Session: ", token.as_slice());
        let qd2 = dec_bytes(quality);
        proof {
            reveal_strlit("X-VK-Quality: ");
        }
        append_prefixed_line(&mut head, "X-VK-Quality: ", qd2.as_slice());
        proof {
            reveal_strlit("Referer: https://vk.com/video");
        }
        append_static_line(&mut head, "Referer: https://vk.com/video");
        proof {
            reveal_strlit("Origin: https://vk.com");
        }
        append_static_line(&mut head, "Origin: https://vk.com");
        head_finish(&mut head);
        proof {
            assert(head@.subrange(0, 4) =~= h1.subrange(0, 4));
        }
        head
    }

    /// The delay before the next packet, in milliseconds.
    pub fn next_packet_timing(&mut self) -> (d: u64)
        requires
            old(self).wf(),
        ensures
            *final(self) == *old(self),
            old(self).spec_timing().min_delay_ms <= d < old(self).spec_timing().max_delay_ms,
    {
        self.timing.next_delay()
    }

    /// A chunk size a video stream would use: 64 KiB up to 256 KiB.
    pub fn recommended_chunk_size(&mut self) -> (r: usize)
        ensures
            *final(self) == *old(self),
            65536 <= r < 262144,
    {
        let draw = random_below(262144 - 65536);
        65536 + draw as usize
    }
}

/// Recover the wrapped bytes from VK Video traffic.
pub struct VkVideoParser;

impl VkVideoParser {
    /// The body of a chunk request, empty when the request carries none.
    pub fn extract_request_payload(data: &[u8]) -> (r: Result<Vec<u8>, MimicryError>)
        ensures
            spec_body_start(data@) is None ==> r == Err::<Vec<u8>, _>(MimicryError::ParseError),
            spec_body_start(data@) matches Some(n) ==> (r matches Ok(body) && body@ == data@.skip(
                n,
            )),
    {
        let body_start = match find_body_start(data) {
            Some(n) => n,
            None => {
                return Err(MimicryError::ParseError);
            },
        };
        let body = slice_to_vec(slice_subrange(data, body_start, data.len()));
        assert(body@ =~= data@.skip(spec_body_start(data@).unwrap()));
        Ok(body)
    }

    /// The body of a chunk response: exactly the wrapped bytes.
    pub fn extract_response_payload(data: &[u8]) -> (r: Result<Vec<u8>, MimicryError>)
        ensures
            spec_body_start(data@) is None ==> r == Err::<Vec<u8>, _>(MimicryError::ParseError),
            spec_body_start(data@) is Some ==> ({
                let n = spec_body_start(data@).unwrap();
                if n >= data@.len() {
                    r == Err::<Vec<u8>, MimicryError>(MimicryError::InvalidFormat)
                } else {
                    r matches Ok(body) && body@ == data@.skip(n)
                }
            }),
    {
        unwrap_http(data)
    }
}

} // verus!
