//! The RuTube profile: wraps ciphertext as an HTTP 206 response carrying a
//! video segment, and emits matching segment requests.

use vstd::prelude::*;

use crate::errors::MimicryError;
use crate::mimicry::http::{
    find_body_start, head_finish, head_wf, line_ok_bytes, seq_contains_at, spec_body_start,
    spec_content_length_line, spec_get_prefix, spec_http11_prefix, unwrap_http,
};
use crate::mimicry::profiles::vk_video::wrapped_ok;
use crate::mimicry::profiles::{
    append_prefixed_line, append_static_line, dec_bytes, hex_token, http_date_now,
};
use crate::mimicry::timing::{random_below, TimingProfile};
use vstd::slice::{slice_subrange, slice_to_vec};

verus! {

/// The RuTube impersonation profile.
pub struct RuTubeProfile {
    timing: TimingProfile,
}

impl RuTubeProfile {
    /// The pacing model, for contracts.
    pub closed spec fn spec_timing(&self) -> TimingProfile {
        self.timing
    }

    /// A profile with a sound pacing model.
    pub open spec fn wf(&self) -> bool {
        self.spec_timing().wf()
    }

    /// A fresh profile with video-streaming pacing.
    pub fn new() -> (r: RuTubeProfile)
        ensures
            r.wf(),
            r.spec_timing() == (TimingProfile {
                min_delay_ms: 10,
                max_delay_ms: 100,
                burst_percent: 70,
                burst_size: 5,
            }),
    {
        RuTubeProfile { timing: TimingProfile::video_streaming() }
    }

    /// Wrap a payload as an HTTP 206 video-segment response: realistic
    /// headers with fresh random dressing, then the payload as the body.
    #[verifier::rlimit(100)]
    pub fn generate_response(&mut self, encrypted_payload: &[u8]) -> (r: Vec<u8>)
        requires
            encrypted_payload@.len() <= 0xFFFFFFFF,
        ensures
            wrapped_ok(r@, encrypted_payload@),
            *final(self) == *old(self),
    {
        let payload_len = encrypted_payload.len() as u64;
        let mut head: Vec<u8> = Vec::new();
        proof {
            reveal_strlit("HTTP/1.1 206 Partial Content");
        }
        append_static_line(&mut head, "HTTP/1.1 206 Partial Content");
        let ghost h1 = head@;
        proof {
            vstd::string::is_ascii_spec_bytes("HTTP/1.1 206 Partial Content");
            assert(h1.subrange(0, 9) =~= spec_http11_prefix());
        }
        proof {
            reveal_strlit("Server: nginx/1.22.1");
        }
        append_static_line(&mut head, "Server: nginx/1.22.1");
        proof {
            reveal_strlit("Content-Type: video/mp2t");
        }
        append_static_line(&mut head, "Content-Type: video/mp2t");
        proof {
            reveal_strlit("Connection: keep-alive");
        }
        append_static_line(&mut head, "Connection: keep-alive");
        proof {
            reveal_strlit("Accept-Ranges: bytes");
        }
        append_static_line(&mut head, "Accept-Ranges: bytes");
        proof {
            reveal_strlit("Cache-Control: public, max-age=31536000");
        }
        append_static_line(&mut head, "Cache-Control: public, max-age=31536000");
        proof {
            reveal_strlit("Access-Control-Allow-Origin: https://rutube.ru");
        }
        append_static_line(&mut head, "Access-Control-Allow-Origin: https://rutube.ru");
        let date = http_date_now();
        proof {
            reveal_strlit("Date: ");
            assert(line_ok_bytes(date@));
        }
        append_prefixed_line(&mut head, "Date: ", date.as_slice());
        let range_start = random_below(10000000);
        let range_end = range_start + payload_len;
        let mut range_val = dec_bytes(range_start);
        proof {
            reveal_strlit("-");
            crate::mimicry::http::lemma_ascii_line_ok("-");
        }
        crate::mimicry::http::push_str_bytes(&mut range_val, "-");
        let range_end_dec = dec_bytes(range_end);
        range_val.extend_from_slice(range_end_dec.as_slice());
        proof {
            reveal_strlit("/40000000");
            crate::mimicry::http::lemma_ascii_line_ok("/40000000");
        }
        crate::mimicry::http::push_str_bytes(&mut range_val, "/40000000");
        proof {
            assert(line_ok_bytes(range_val@));
            reveal_strlit("Content-Range: bytes ");
        }
        append_prefixed_line(&mut head, "Content-Range: bytes ", range_val.as_slice());
        let token = hex_token(16);
        proof {
            reveal_strlit("X-Rutube-Session: ");
        }
        append_prefixed_line(&mut head, "X-Rutube-Session: ", token.as_slice());
        let ghost cl_pos = head@.len();
        let cl_value = dec_bytes(payload_len);
        proof {
            reveal_strlit("Content-Length: ");
        }
        append_prefixed_line(&mut head, "Content-Length: ", cl_value.as_slice());
        let ghost after_cl = head@;
        proof {
            reveal_strlit("Content-Length: ");
            vstd::string::is_ascii_spec_bytes("Content-Length: ");
            assert(after_cl.subrange(cl_pos as int, after_cl.len() as int)
                =~= spec_content_length_line(payload_len));
        }
        head_finish(&mut head);
        let ghost hd = head@;
        proof {
            assert(hd.subrange(cl_pos as int, after_cl.len() as int) =~= after_cl.subrange(
                cl_pos as int,
                after_cl.len() as int,
            ));
            assert(seq_contains_at(hd, spec_content_length_line(payload_len), cl_pos as int));
            assert(hd.subrange(0, 9) =~= h1.subrange(0, 9));
        }
        let mut out = head;
        out.extend_from_slice(encrypted_payload);
        proof {
            assert(out@.take(hd.len() as int) =~= hd);
            assert(out@.skip(hd.len() as int) =~= encrypted_payload@);
        }
        out
    }

    /// Emit a plausible segment request for bidirectional cover traffic.
    #[verifier::rlimit(100)]
    pub fn generate_request(&mut self, video_id: u64, segment: u64) -> (r: Vec<u8>)
        ensures
            head_wf(r@),
            r@.len() >= 4,
            r@.subrange(0, 4) == spec_get_prefix(),
            *final(self) == *old(self),
    {
        let mut target = dec_bytes(video_id);
        proof {
            reveal_strlit("/segment-");
            crate::mimicry::http::lemma_ascii_line_ok("/segment-");
        }
        crate::mimicry::http::push_str_bytes(&mut target, "/segment-");
        let sd = dec_bytes(segment);
        target.extend_from_slice(sd.as_slice());
        proof {
            reveal_strlit(".ts HTTP/1.1");
            crate::mimicry::http::lemma_ascii_line_ok(".ts HTTP/1.1");
        }
        crate::mimicry::http::push_str_bytes(&mut target, ".ts HTTP/1.1");
        let mut head: Vec<u8> = Vec::new();
        proof {
            assert(line_ok_bytes(target@));
            reveal_strlit("GET /hls/");
        }
        append_prefixed_line(&mut head, "GET /hls/", target.as_slice());
        let ghost h1 = head@;
        proof {
            vstd::string::is_ascii_spec_bytes("GET /hls/");
            assert(h1.subrange(0, 4) =~= spec_get_prefix());
        }
        proof {
            reveal_strlit("Host: rutube.ru");
        }
        append_static_line(&mut head, "Host: rutube.ru");
        let ua: &str = match random_below(3) {
            0 => "RutubeApp/3.12 (Android 13; SM-A525F)",
            1 => "RutubeApp/3.11 (iOS 16.4; iPhone13,2)",
            _ => "Mozilla/5.0 (Windows NT 10.0; Win64; x64) Rutube/3.12",
        };
        proof {
            reveal_strlit("RutubeApp/3.12 (Android 13; SM-A525F)");
            reveal_strlit("RutubeApp/3.11 (iOS 16.4; iPhone13,2)");
            reveal_strlit("Mozilla/5.0 (Windows NT 10.0; Win64; x64) Rutube/3.12");
            reveal_strlit("User-Agent: ");
            crate::mimicry::http::lemma_ascii_line_ok(ua);
        }
        append_prefixed_line(&mut head, "User-Agent: ", ua.as_bytes());
        proof {
            reveal_strlit("Accept: */*");
        }
        append_static_line(&mut head, "Accept: */*");
        proof {
            reveal_strlit("Accept-Encoding: gzip, deflate");
        }
        append_static_line(&mut head, "Accept-Encoding: gzip, deflate");
        proof {
            reveal_strlit("Connection: keep-alive");
        }
        append_static_line(&mut head, "Connection: keep-alive");
        let token = hex_token(16);
        proof {
            reveal_strlit("X-Rutube-Session: ");
        }
        append_prefixed_line(&mut head, "X-Rutube-Session: ", token.as_slice());
        proof {
            reveal_strlit("Referer: https://rutube.ru/");
        }
        append_static_line(&mut head, "Referer: https://rutube.ru/");
        proof {
            reveal_strlit("Origin: https://rutube.ru");
        }
        append_static_line(&mut head, "Origin: https://rutube.ru");
        head_finish(&mut head);
        proof {
            assert(head@.subrange(0, 4) =~= h1.subrange(0, 4));
        }
        head
    }

    /// The delay before the next packet, in milliseconds.
    pub fn next_packet_timing(&mut self) -> (d: u64)
        requires
            old(self).wf(),
        ensures
            *final(self) == *old(self),
            old(self).spec_timing().min_delay_ms <= d < old(self).spec_timing().max_delay_ms,
    {
        self.timing.next_delay()
    }

    /// A chunk size a video stream would use: 64 KiB up to 256 KiB.
    pub fn recommended_chunk_size(&mut self) -> (r: usize)
        ensures
            *final(self) == *old(self),
            65536 <= r < 262144,
    {
        let draw = random_below(262144 - 65536);
        65536 + draw as usize
    }
}

/// Recover the wrapped bytes from RuTube traffic.
pub struct RuTubeParser;

impl RuTubeParser {
    /// The body of a segment request, empty when the request carries none.
    pub fn extract_request_payload(data: &[u8]) -> (r: Result<Vec<u8>, MimicryError>)
        ensures
            spec_body_start(data@) is None ==> r == Err::<Vec<u8>, _>(MimicryError::ParseError),
            spec_body_start(data@) matches Some(n) ==> (r matches Ok(body) && body@ == data@.skip(
                n,
            )),
    {
        let body_start = match find_body_start(data) {
            Some(n) => n,
            None => {
                return Err(MimicryError::ParseError);
            },
        };
        let body = slice_to_vec(slice_subrange(data, body_start, data.len()));
        assert(body@ =~= data@.skip(spec_body_start(data@).unwrap()));
        Ok(body)
    }

    /// The body of a segment response: exactly the wrapped bytes.
    pub fn extract_response_payload(data: &[u8]) -> (r: Result<Vec<u8>, MimicryError>)
        ensures
            spec_body_start(data@) is None ==> r == Err::<Vec<u8>, _>(MimicryError::ParseError),
            spec_body_start(data@) is Some ==> ({
                let n = spec_body_start(data@).unwrap();
                if n >= data@.len() {
                    r == Err::<Vec<u8>, MimicryError>(MimicryError::InvalidFormat)
                } else {
                    r matches Ok(body) && body@ == data@.skip(n)
                }
            }),
    {
        unwrap_http(data)
    }
}

} // verus!
