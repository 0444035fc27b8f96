//! The Yandex Music profile: wraps ciphertext as an HTTP 200 response
//! carrying an audio stream, and emits matching track requests.

use vstd::prelude::*;

use crate::errors::MimicryError;
use crate::mimicry::http::{
    find_body_start, head_finish, head_wf, line_ok_bytes, seq_contains_at, spec_body_start,
    spec_content_length_line, spec_get_prefix, spec_http11_prefix, unwrap_http,
};
use crate::mimicry::profiles::{
    append_prefixed_line, append_static_line, dec_bytes, hex_token, http_date_now,
};
use crate::mimicry::timing::{random_below, TimingProfile};
use crate::mimicry::profiles::vk_video::wrapped_ok;
use vstd::slice::{slice_subrange, slice_to_vec};

verus! {

/// The Yandex Music impersonation profile.
pub struct YandexMusicProfile {
    timing: TimingProfile,
}

impl YandexMusicProfile {
    /// The pacing model, for contracts.
    pub closed spec fn spec_timing(&self) -> TimingProfile {
        self.timing
    }

    /// A profile with a sound pacing model.
    pub open spec fn wf(&self) -> bool {
        self.spec_timing().wf()
    }

    /// A fresh profile with audio-streaming pacing.
    pub fn new() -> (r: YandexMusicProfile)
        ensures
            r.wf(),
            r.spec_timing() == (TimingProfile {
                min_delay_ms: 50,
                max_delay_ms: 200,
                burst_percent: 30,
                burst_size: 2,
            }),
    {
        YandexMusicProfile { timing: TimingProfile::audio_streaming() }
    }

    /// Wrap a payload as an HTTP 200 audio-stream response: realistic
    /// headers with fresh random dressing, then the payload as the body.
    #[verifier::rlimit(100)]
    pub fn generate_response(&mut self, encrypted_payload: &[u8]) -> (r: Vec<u8>)
        requires
            encrypted_payload@.len() <= 0xFFFFFFFF,
        ensures
            wrapped_ok(r@, encrypted_payload@),
            *final(self) == *old(self),
    {
        let payload_len = encrypted_payload.len() as u64;
        let mut head: Vec<u8> = Vec::new();
        proof {
            reveal_strlit("HTTP/1.1 200 OK");
        }
        append_static_line(&mut head, "HTTP/1.1 200 OK");
        let ghost h1 = head@;
        proof {
            vstd::string::is_ascii_spec_bytes("HTTP/1.1 200 OK");
            assert(h1.subrange(0, 9) =~= spec_http11_prefix());
        }
        proof {
            reveal_strlit("Server: nginx");
        }
        append_static_line(&mut head, "Server: nginx");
        match random_below(3) {
            0 => {
                proof {
                    reveal_strlit("Content-Type: audio/mpeg");
                }
                append_static_line(&mut head, "Content-Type: audio/mpeg");
            },
            1 => {
                proof {
                    reveal_strlit("Content-Type: audio/aac");
                }
                append_static_line(&mut head, "Content-Type: audio/aac");
            },
            _ => {
                proof {
                    reveal_strlit("Content-Type: audio/mp4");
                }
                append_static_line(&mut head, "Content-Type: audio/mp4");
            },
        }
        proof {
            reveal_strlit("Connection: keep-alive");
        }
        append_static_line(&mut head, "Connection: keep-alive");
        proof {
            reveal_strlit("Accept-Ranges: bytes");
        }
        append_static_line(&mut head, "Accept-Ranges: bytes");
        proof {
            reveal_strlit("Cache-Control: public, max-age=86400");
        }
        append_static_line(&mut head, "Cache-Control: public, max-age=86400");
        proof {
            reveal_strlit("Access-Control-Allow-Origin: https://music.yandex.ru");
        }
        append_static_line(&mut head, "Access-Control-Allow-Origin: https://music.yandex.ru");
        proof {
            reveal_strlit("Timing-Allow-Origin: https://music.yandex.ru");
        }
        append_static_line(&mut head, "Timing-Allow-Origin: https://music.yandex.ru");
        let date = http_date_now();
        proof {
            reveal_strlit("Date: ");
            assert(line_ok_bytes(date@));
        }
        append_prefixed_line(&mut head, "Date: ", date.as_slice());
        let token = hex_token(20);
        proof {
            reveal_strlit("X-Yandex-Music-Session: ");
        }
        append_prefixed_line(&mut head, "X-Yandex-Music-Session: ", token.as_slice());
        let req_id = hex_token(12);
        proof {
            reveal_strlit("X-Yandex-Req-Id: ");
        }
        append_prefixed_line(&mut head, "X-Yandex-Req-Id: ", req_id.as_slice());
        let ghost cl_pos = head@.len();
        let cl_value = dec_bytes(payload_len);
        proof {
            reveal_strlit("Content-Length: ");
        }
        append_prefixed_line(&mut head, "Content-Length: ", cl_value.as_slice());
        let ghost after_cl = head@;
        proof {
            reveal_strlit("Content-Length: ");
            vstd::string::is_ascii_spec_bytes("Content-Length: ");
            assert(after_cl.subrange(cl_pos as int, after_cl.len() as int)
                =~= spec_content_length_line(payload_len));
        }
        head_finish(&mut head);
        let ghost hd = head@;
        proof {
            assert(hd.subrange(cl_pos as int, after_cl.len() as int) =~= after_cl.subrange(
                cl_pos as int,
                after_cl.len() as int,
            ));
            assert(seq_contains_at(hd, spec_content_length_line(payload_len), cl_pos as int));
            assert(hd.subrange(0, 9) =~= h1.subrange(0, 9));
        }
        let mut out = head;
        out.extend_from_slice(encrypted_payload);
        proof {
            assert(out@.take(hd.len() as int) =~= hd);
            assert(out@.skip(hd.len() as int) =~= encrypted_payload@);
        }
        out
    }

    /// Emit a plausible track request for bidirectional cover traffic.
    #[verifier::rlimit(100)]
    pub fn generate_request(&mut self, track_id: u64) -> (r: Vec<u8>)
        ensures
            head_wf(r@),
            r@.len() >= 4,
            r@.subrange(0, 4) == spec_get_prefix(),
            *final(self) == *old(self),
    {
        let bitrate: u64 = match random_below(4) {
            0 => 128,
            1 => 192,
            2 => 256,
            _ => 320,
        };
        let mut target = dec_bytes(track_id);
        proof {
            reveal_strlit("_");
            crate::mimicry::http::lemma_ascii_line_ok("_");
        }
        crate::mimicry::http::push_str_bytes(&mut target, "_");
        let bd = dec_bytes(bitrate);
        target.extend_from_slice(bd.as_slice());
        proof {
            reveal_strlit(".mp3 HTTP/1.1");
            crate::mimicry::http::lemma_ascii_line_ok(".mp3 HTTP/1.1");
        }
        crate::mimicry::http::push_str_bytes(&mut target, ".mp3 HTTP/1.1");
        let mut head: Vec<u8> = Vec::new();
        proof {
            assert(line_ok_bytes(target@));
            reveal_strlit("GET /get-mp3/");
        }
        append_prefixed_line(&mut head, "GET /get-mp3/", target.as_slice());
        let ghost h1 = head@;
        proof {
            vstd::string::is_ascii_spec_bytes("GET /get-mp3/");
            assert(h1.subrange(0, 4) =~= spec_get_prefix());
        }
        proof {
            reveal_strlit("Host: music.yandex.ru");
        }
        append_static_line(&mut head, "Host: music.yandex.ru");
        let ua: &str = match random_below(3) {
            0 => "YandexMusic/5.37 (Android 13; Pixel 6 Pro)",
            1 => "YandexMusic/5.36 (iOS 16.5; iPhone 14 Pro)",
            _ => "YandexMusicDesktop/5.0.5",
        };
        proof {
            reveal_strlit("YandexMusic/5.37 (Android 13; Pixel 6 Pro)");
            reveal_strlit("YandexMusic/5.36 (iOS 16.5; iPhone 14 Pro)");
            reveal_strlit("YandexMusicDesktop/5.0.5");
            reveal_strlit("User-Agent: ");
            crate::mimicry::http::lemma_ascii_line_ok(ua);
        }
        append_prefixed_line(&mut head, "User-Agent: ", ua.as_bytes());
        proof {
            reveal_strlit("Accept: */*");
        }
        append_static_line(&mut head, "Accept: */*");
        proof {
            reveal_strlit("Accept-Encoding: gzip, deflate");
        }
        append_static_line(&mut head, "Accept-Encoding: gzip, deflate");
        proof {
            reveal_strlit("Connection: keep-alive");
        }
        append_static_line(&mut head, "Connection: keep-alive");
        proof {
            reveal_strlit("X-Yandex-Music-Client: web");
        }
        append_static_line(&mut head, "X-Yandex-Music-Client: web");
        let token = hex_token(20);
        proof {
            reveal_strlit("X-Yandex-Music-Session: ");
        }
        append_prefixed_line(&mut head, "X-Yandex-Music-Session: ", token.as_slice());
        let bd2 = dec_bytes(bitrate);
        proof {
            reveal_strlit("X-Yandex-Music-Bitrate: ");
        }
        append_prefixed_line(&mut head, "X-Yandex-Music-Bitrate: ", bd2.as_slice());
        proof {
            reveal_strlit("Referer: https://music.yandex.ru/");
        }
        append_static_line(&mut head, "Referer: https://music.yandex.ru/");
        proof {
            reveal_strlit("Origin: https://music.yandex.ru");
        }
        append_static_line(&mut head, "Origin: https://music.yandex.ru");
        let cookie = hex_token(10);
        proof {
            reveal_strlit("Cookie: yandexuid=");
        }
        append_prefixed_line(&mut head, "Cookie: yandexuid=", cookie.as_slice());
        head_finish(&mut head);
        proof {
            assert(head@.subrange(0, 4) =~= h1.subrange(0, 4));
        }
        head
    }

    /// The delay before the next packet, in milliseconds.
    pub fn next_packet_timing(&mut self) -> (d: u64)
        requires
            old(self).wf(),
        ensures
            *final(self) == *old(self),
            old(self).spec_timing().min_delay_ms <= d < old(self).spec_timing().max_delay_ms,
    {
        self.timing.next_delay()
    }

    /// A chunk size an audio stream would use: 16 KiB up to 64 KiB.
    pub fn recommended_chunk_size(&mut self) -> (r: usize)
        ensures
            *final(self) == *old(self),
            16384 <= r < 65536,
    {
        let draw = random_below(65536 - 16384);
        16384 + draw as usize
    }
}

/// Recover the wrapped bytes from Yandex Music traffic.
pub struct YandexMusicParser;

impl YandexMusicParser {
    /// The body of a track request, empty when the request carries none.
    pub fn extract_request_payload(data: &[u8]) -> (r: Result<Vec<u8>, MimicryError>)
        ensures
            spec_body_start(data@) is None ==> r == Err::<Vec<u8>, _>(MimicryError::ParseError),
            spec_body_start(data@) matches Some(n) ==> (r matches Ok(body) && body@ == data@.skip(
                n,
            )),
    {
        let body_start = match find_body_start(data) {
            Some(n) => n,
            None => {
                return Err(MimicryError::ParseError);
            },
        };
        let body = slice_to_vec(slice_subrange(data, body_start, data.len()));
        assert(body@ =~= data@.skip(spec_body_start(data@).unwrap()));
        Ok(body)
    }

    /// The body of a stream response: exactly the wrapped bytes.
    pub fn extract_response_payload(data: &[u8]) -> (r: Result<Vec<u8>, MimicryError>)
        ensures
            spec_body_start(data@) is None ==> r == Err::<Vec<u8>, _>(MimicryError::ParseError),
            spec_body_start(data@) is Some ==> ({
                let n = spec_body_start(data@).unwrap();
                if n >= data@.len() {
                    r == Err::<Vec<u8>, MimicryError>(MimicryError::InvalidFormat)
                } else {
                    r matches Ok(body) && body@ == data@.skip(n)
                }
            }),
    {
        unwrap_http(data)
    }
}

} // verus!
