//! End-to-end scenarios: a deterministic handshake with agreeing keys, the
//! data round trip with header AAD, replay rejection, out-of-order
//! delivery, a tampered transcript, and the mimicry round trip.

use llp::crypto::X25519Key;
use llp::errors::{CryptoError, HandshakeError, LlpError, SessionError};
use llp::handshake::{ClientHandshake, ServerHandshake};
use llp::mimicry::wrapper::QuickWrapper;
use llp::packet::{MimicryProfile, PacketHeader, FLAG_DATA};
use llp::session::Session;

use rand::rngs::StdRng;
use rand::{RngCore, SeedableRng};

const NOW: u64 = 1_700_000_000;

fn seeded_bytes(seed: u64) -> [u8; 32] {
    let mut rng = StdRng::seed_from_u64(seed);
    let mut bytes = [0u8; 32];
    rng.fill_bytes(&mut bytes);
    bytes
}

fn run_handshake(
    client_seed: u64,
    server_seed: u64,
) -> (ClientHandshake, ServerHandshake, Vec<u8>) {
    let client_key = X25519Key::from_bytes(&seeded_bytes(client_seed)).unwrap();
    let server_key = X25519Key::from_bytes(&seeded_bytes(server_seed)).unwrap();
    let mut client = ClientHandshake::new(client_key, MimicryProfile::VkVideo);
    let mut server = ServerHandshake::new(server_key, 12345);

    let client_hello = client.start(&seeded_bytes(client_seed + 1)).unwrap();
    let (server_hello, _) = server
        .process_client_hello(&client_hello, &seeded_bytes(server_seed + 1))
        .unwrap();
    client.process_server_hello(&server_hello).unwrap();
    let client_verify = client.send_client_verify().unwrap();
    server.process_client_verify(&client_verify).unwrap();
    let server_verify = server.send_server_verify().unwrap();
    client.process_server_verify(&server_verify).unwrap();
    (client, server, client_hello)
}

#[test]
fn scenario_handshake_completes_and_keys_agree() {
    let (client, server, _) = run_handshake(7, 11);

    assert!(client.is_completed());
    assert!(server.is_completed());
    assert_eq!(client.session_id(), Some(12345));

    let client_key = client.session_key().unwrap().as_bytes().to_vec();
    let server_key = server.session_key().unwrap().as_bytes().to_vec();
    assert_eq!(client_key, server_key);

    // the same seeds give the same key again: the derivation is a function
    // of the exchanged material alone
    let (client2, _, _) = run_handshake(7, 11);
    assert_eq!(client2.session_key().unwrap().as_bytes().to_vec(), client_key);
}

#[test]
fn scenario_tampered_hello_fails_verification() {
    // a modified ClientHello byte makes the responder reject the
    // initiator's confirmation tag
    let client_key = X25519Key::from_bytes(&seeded_bytes(21)).unwrap();
    let server_key = X25519Key::from_bytes(&seeded_bytes(22)).unwrap();
    let mut client = ClientHandshake::new(client_key, MimicryProfile::Plain);
    let mut server = ServerHandshake::new(server_key, 77);

    let mut client_hello = client.start(&seeded_bytes(23)).unwrap();
    // flip one byte of the random contribution on the wire
    client_hello[34] ^= 0x01;

    let (server_hello, _) = server
        .process_client_hello(&client_hello, &seeded_bytes(24))
        .unwrap();
    client.process_server_hello(&server_hello).unwrap();
    let client_verify = client.send_client_verify().unwrap();

    let result = server.process_client_verify(&client_verify);
    assert_eq!(
        result.unwrap_err(),
        LlpError::HandshakeError(HandshakeError::VerificationFailed)
    );
}

fn data_header(session_id: u64, sequence: u32) -> Vec<u8> {
    let header = PacketHeader::new(FLAG_DATA, session_id, sequence, MimicryProfile::Plain, 1000);
    let mut aad: Vec<u8> = Vec::new();
    header.serialize(&mut aad);
    aad
}

#[test]
fn scenario_data_round_trip_with_aad() {
    let key = llp::crypto::SessionKey::from_bytes(&seeded_bytes(31));
    let mut sender = Session::new(12345, key.clone(), MimicryProfile::Plain, NOW);
    let mut receiver = Session::new(12345, key, MimicryProfile::Plain, NOW);

    let plaintext = b"Hello, LLP!";
    let aad = data_header(12345, 0);

    let (ciphertext, seq) = sender.encrypt_payload(plaintext, &aad, NOW).unwrap();
    assert_eq!(seq, 0);
    assert_eq!(ciphertext.len(), 27);

    let decrypted = receiver.decrypt_payload(&ciphertext, &aad, seq, NOW).unwrap();
    assert_eq!(&decrypted, plaintext);

    // a flipped AAD byte makes decryption fail
    let mut receiver2 = Session::new(
        12345,
        llp::crypto::SessionKey::from_bytes(&seeded_bytes(31)),
        MimicryProfile::Plain,
        NOW,
    );
    let mut bad_aad = aad.clone();
    bad_aad[3] ^= 0x01;
    let result = receiver2.decrypt_payload(&ciphertext, &bad_aad, seq, NOW);
    assert_eq!(result.unwrap_err(), LlpError::CryptoError(CryptoError::Decryption));
}

#[test]
fn scenario_replay_rejected() {
    let key = llp::crypto::SessionKey::from_bytes(&seeded_bytes(41));
    let mut sender = Session::new(12345, key.clone(), MimicryProfile::Plain, NOW);
    let mut receiver = Session::new(12345, key, MimicryProfile::Plain, NOW);

    let aad = data_header(12345, 0);
    let (ciphertext, seq) = sender.encrypt_payload(b"Hello, LLP!", &aad, NOW).unwrap();

    receiver.decrypt_payload(&ciphertext, &aad, seq, NOW).unwrap();

    // the exact same ciphertext and sequence again
    let result = receiver.decrypt_payload(&ciphertext, &aad, seq, NOW);
    assert_eq!(
        result.unwrap_err(),
        LlpError::SessionError(SessionError::DuplicateSequenceNumber {
            session_id: 12345,
            seq: 0,
        })
    );
}

#[test]
fn scenario_out_of_order_within_window() {
    let key = llp::crypto::SessionKey::from_bytes(&seeded_bytes(51));
    let mut sender = Session::new(9, key.clone(), MimicryProfile::Plain, NOW);
    let mut receiver = Session::new(9, key, MimicryProfile::Plain, NOW);

    // the sender's sequences come out as 0 through 9, in order
    let aad = b"aad";
    let mut packets: Vec<(Vec<u8>, u32)> = Vec::new();
    for expected_seq in 0u32..10 {
        let (ct, seq) = sender.encrypt_payload(b"payload", aad, NOW).unwrap();
        assert_eq!(seq, expected_seq);
        packets.push((ct, seq));
    }

    // delivery out of order, all within the window: all accepted
    for &i in &[0usize, 5, 3, 2, 1, 4, 6, 7, 8, 9] {
        let (ct, seq) = &packets[i];
        assert!(receiver.decrypt_payload(ct, aad, *seq, NOW).is_ok(), "seq {}", seq);
    }

    // one of them again: rejected
    let (ct, seq) = &packets[3];
    assert!(receiver.decrypt_payload(ct, aad, *seq, NOW).is_err());
}

#[test]
fn scenario_mimicry_round_trip() {
    let payload: Vec<u8> = (0u16..256).map(|b| b as u8).collect();

    for profile in [
        MimicryProfile::VkVideo,
        MimicryProfile::YandexMusic,
        MimicryProfile::RuTube,
    ] {
        let wrapped = QuickWrapper::wrap(profile, &payload).unwrap();
        assert!(wrapped.starts_with(b"HTTP/1.1 "), "{:?}", profile);
        assert!(wrapped.ends_with(&payload), "{:?}", profile);

        let unwrapped = QuickWrapper::unwrap(profile, &wrapped).unwrap();
        assert_eq!(unwrapped, payload, "{:?}", profile);
    }

    // the documented chunk-size ranges
    let mut video = llp::mimicry::wrapper::PacketWrapper::new(MimicryProfile::VkVideo);
    let s = video.recommended_chunk_size();
    assert!((64 * 1024..256 * 1024).contains(&s));
    let mut audio = llp::mimicry::wrapper::PacketWrapper::new(MimicryProfile::YandexMusic);
    let s = audio.recommended_chunk_size();
    assert!((16 * 1024..64 * 1024).contains(&s));
    let mut rutube = llp::mimicry::wrapper::PacketWrapper::new(MimicryProfile::RuTube);
    let s = rutube.recommended_chunk_size();
    assert!((64 * 1024..256 * 1024).contains(&s));
}
