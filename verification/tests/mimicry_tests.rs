//! Tests of the mimicry layer: profile wrap/unwrap round trips, the
//! wrapper facade, pacing, and chunk-size recommendations.

use llp::mimicry::profiles::rutube::{RuTubeParser, RuTubeProfile};
use llp::mimicry::profiles::vk_video::{VkVideoParser, VkVideoProfile};
use llp::mimicry::profiles::yandex_music::{YandexMusicParser, YandexMusicProfile};
use llp::mimicry::timing::TimingProfile;
use llp::mimicry::wrapper::{PacketWrapper, QuickWrapper};
use llp::packet::MimicryProfile;

fn contains_sub(haystack: &[u8], needle: &[u8]) -> bool {
    if needle.is_empty() {
        return true;
    }
    if haystack.len() < needle.len() {
        return false;
    }
    (0..=haystack.len() - needle.len()).any(|i| &haystack[i..i + needle.len()] == needle)
}

#[test]
fn test_wrapper_vk_video() {
    let mut wrapper = PacketWrapper::new(MimicryProfile::VkVideo);
    let original_data = b"test llp packet data";

    let wrapped = wrapper.wrap(original_data).unwrap();
    assert!(wrapped.len() > original_data.len());

    let unwrapped = wrapper.unwrap(&wrapped).unwrap();
    assert_eq!(&unwrapped[..], &original_data[..]);
}

#[test]
fn test_wrapper_yandex_music() {
    let mut wrapper = PacketWrapper::new(MimicryProfile::YandexMusic);
    let original_data = b"test llp packet data";

    let wrapped = wrapper.wrap(original_data).unwrap();
    let unwrapped = wrapper.unwrap(&wrapped).unwrap();
    assert_eq!(&unwrapped[..], &original_data[..]);
}

#[test]
fn test_wrapper_rutube() {
    let mut wrapper = PacketWrapper::new(MimicryProfile::RuTube);
    let original_data = b"test llp packet data";

    let wrapped = wrapper.wrap(original_data).unwrap();
    let unwrapped = wrapper.unwrap(&wrapped).unwrap();
    assert_eq!(&unwrapped[..], &original_data[..]);
}

#[test]
fn test_wrapper_none() {
    let mut wrapper = PacketWrapper::new(MimicryProfile::Plain);
    let original_data = b"test llp packet data";

    let wrapped = wrapper.wrap(original_data).unwrap();
    assert_eq!(&wrapped[..], &original_data[..]);

    let unwrapped = wrapper.unwrap(&wrapped).unwrap();
    assert_eq!(&unwrapped[..], &original_data[..]);
}

#[test]
fn test_quick_wrapper() {
    let original_data = b"quick wrap test";

    let wrapped = QuickWrapper::wrap(MimicryProfile::VkVideo, original_data).unwrap();
    let unwrapped = QuickWrapper::unwrap(MimicryProfile::VkVideo, &wrapped).unwrap();

    assert_eq!(&unwrapped[..], &original_data[..]);
}

#[test]
fn test_chunk_counter() {
    let mut wrapper = PacketWrapper::new(MimicryProfile::VkVideo);
    assert_eq!(wrapper.chunk_counter(), 0);

    wrapper.wrap(b"test1").unwrap();
    assert_eq!(wrapper.chunk_counter(), 1);

    wrapper.wrap(b"test2").unwrap();
    assert_eq!(wrapper.chunk_counter(), 2);
}

#[test]
fn wrapper_test_timing() {
    let mut wrapper = PacketWrapper::new(MimicryProfile::VkVideo);
    let timing = wrapper.next_packet_timing();
    assert!(timing <= 1000);
}

#[test]
fn wrapper_test_chunk_size() {
    let mut wrapper_video = PacketWrapper::new(MimicryProfile::VkVideo);
    let size_video = wrapper_video.recommended_chunk_size();
    assert!(size_video >= 64 * 1024);

    let mut wrapper_audio = PacketWrapper::new(MimicryProfile::YandexMusic);
    let size_audio = wrapper_audio.recommended_chunk_size();
    assert!(size_audio >= 16 * 1024);
    assert!(size_audio <= 64 * 1024);
}

#[test]
fn vk_video_test_generate_request() {
    let mut profile = VkVideoProfile::new();
    let request = profile.generate_request(12345);

    assert!(contains_sub(&request, b"GET /video/chunk_"));
    assert!(contains_sub(&request, b"Host: vkvideo.ru"));
    assert!(contains_sub(&request, b"User-Agent: "));
    assert!(contains_sub(&request, b"X-VK-Session: "));
}

#[test]
fn vk_video_test_generate_response() {
    let mut profile = VkVideoProfile::new();
    let payload = b"encrypted data here";
    let response = profile.generate_response(payload);

    assert!(contains_sub(&response, b"HTTP/1.1 206 Partial Content"));
    assert!(contains_sub(&response, b"Content-Type: video/mp2t"));
    assert!(contains_sub(&response, b"X-VK-Session: "));

    assert!(response.ends_with(payload));
}

#[test]
fn vk_video_test_extract_response_payload() {
    let mut profile = VkVideoProfile::new();
    let original_payload = b"test encrypted data";
    let response = profile.generate_response(original_payload);

    let extracted = VkVideoParser::extract_response_payload(&response).unwrap();
    assert_eq!(&extracted[..], &original_payload[..]);
}

#[test]
fn vk_video_test_chunk_size() {
    let mut profile = VkVideoProfile::new();
    let size = profile.recommended_chunk_size();
    assert!(size >= 64 * 1024);
    assert!(size <= 256 * 1024);
}

#[test]
fn vk_video_test_timing() {
    let mut profile = VkVideoProfile::new();
    let timing = profile.next_packet_timing();
    assert!(timing <= 1000);
}

#[test]
fn yandex_music_test_generate_request() {
    let mut profile = YandexMusicProfile::new();
    let request = profile.generate_request(54321);

    assert!(contains_sub(&request, b"GET /get-"));
    assert!(contains_sub(&request, b"Host: music.yandex.ru"));
    assert!(contains_sub(&request, b"User-Agent: "));
    assert!(contains_sub(&request, b"X-Yandex-Music-Session: "));
}

#[test]
fn yandex_music_test_generate_response() {
    let mut profile = YandexMusicProfile::new();
    let payload = b"encrypted audio data";
    let response = profile.generate_response(payload);

    assert!(contains_sub(&response, b"HTTP/1.1 200 OK"));
    assert!(contains_sub(&response, b"Content-Type: audio/"));
    assert!(contains_sub(&response, b"X-Yandex-Music-Session: "));

    assert!(response.ends_with(payload));
}

#[test]
fn yandex_music_test_extract_response_payload() {
    let mut profile = YandexMusicProfile::new();
    let original_payload = b"test audio data";
    let response = profile.generate_response(original_payload);

    let extracted = YandexMusicParser::extract_response_payload(&response).unwrap();
    assert_eq!(&extracted[..], &original_payload[..]);
}

#[test]
fn yandex_music_test_chunk_size() {
    let mut profile = YandexMusicProfile::new();
    let size = profile.recommended_chunk_size();
    assert!(size >= 16 * 1024);
    assert!(size <= 64 * 1024);
}

#[test]
fn yandex_music_test_timing() {
    let mut profile = YandexMusicProfile::new();
    let timing = profile.next_packet_timing();
    assert!(timing >= 50);
    assert!(timing <= 200);
}

#[test]
fn rutube_test_generate_response() {
    let mut profile = RuTubeProfile::new();
    let payload = b"encrypted segment";
    let response = profile.generate_response(payload);

    assert!(contains_sub(&response, b"HTTP/1.1 206 Partial Content"));
    assert!(contains_sub(&response, b"X-Rutube-Session: "));
    assert!(response.ends_with(payload));

    let extracted = RuTubeParser::extract_response_payload(&response).unwrap();
    assert_eq!(&extracted[..], &payload[..]);
}

#[test]
fn rutube_test_generate_request() {
    let mut profile = RuTubeProfile::new();
    let request = profile.generate_request(33, 7);

    assert!(contains_sub(&request, b"GET /hls/"));
    assert!(contains_sub(&request, b"Host: rutube.ru"));
}

#[test]
fn test_video_streaming_timing() {
    let profile = TimingProfile::video_streaming();

    for _ in 0..100 {
        let delay = profile.next_delay();
        assert!(delay >= profile.min_delay_ms);
        assert!(delay <= profile.max_delay_ms);
    }
}

#[test]
fn test_audio_streaming_timing() {
    let profile = TimingProfile::audio_streaming();

    let delay = profile.next_delay();
    assert!(delay >= profile.min_delay_ms);
}

#[test]
fn test_unwrap_malformed() {
    // no header terminator at all: incomplete HTTP
    let wrapper = PacketWrapper::new(MimicryProfile::VkVideo);
    assert!(wrapper.unwrap(b"HTTP/1.1 206 Partial Content\r\nDate: x").is_err());

    // a complete head with no body at all
    assert!(wrapper.unwrap(b"HTTP/1.1 206 Partial Content\r\n\r\n").is_err());
}

#[test]
fn test_content_length_announces_body() {
    let mut profile = VkVideoProfile::new();
    let payload = vec![9u8; 123];
    let response = profile.generate_response(&payload);
    assert!(contains_sub(&response, b"Content-Length: 123\r\n"));
}

#[test]
fn test_session_token_is_hex() {
    // the session token after the header name is lowercase hex, freshly
    // drawn for each response
    let mut profile = VkVideoProfile::new();
    let r1 = profile.generate_response(b"abc");
    let r2 = profile.generate_response(b"abc");

    fn token_after(buf: &[u8], name: &[u8]) -> Vec<u8> {
        let start = (0..buf.len() - name.len())
            .find(|&i| &buf[i..i + name.len()] == name)
            .expect("header present")
            + name.len();
        buf[start..]
            .iter()
            .take_while(|&&b| b != b'\r')
            .copied()
            .collect()
    }

    let t1 = token_after(&r1, b"X-VK-Session: ");
    let t2 = token_after(&r2, b"X-VK-Session: ");
    assert_eq!(t1.len(), 32);
    assert!(t1.iter().all(|b| b.is_ascii_hexdigit()));
    assert_ne!(t1, t2);
}
