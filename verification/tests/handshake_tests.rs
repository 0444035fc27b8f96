//! Tests of the handshake messages and the two state machines.

use llp::crypto::{random_bytes, X25519Key};
use llp::handshake::{ClientHandshake, ClientHello, ClientVerify, ServerHandshake, ServerHello};
use llp::packet::MimicryProfile;

#[test]
fn test_client_hello_serialization() {
    let key = X25519Key::generate();
    let client_random = random_bytes(32);
    let client_hello = ClientHello::new(&key, &client_random, MimicryProfile::VkVideo);

    let serialized = client_hello.serialize();
    let deserialized = ClientHello::deserialize(&serialized).unwrap();

    assert_eq!(client_hello.client_public_key, deserialized.client_public_key);
    assert_eq!(client_hello.client_random, deserialized.client_random);
    assert_eq!(client_hello.mimicry_profile, deserialized.mimicry_profile);
}

#[test]
fn test_server_hello_serialization() {
    let key = X25519Key::generate();
    let server_random = random_bytes(32);
    let server_hello = ServerHello::new(&key, &server_random, 12345);

    let serialized = server_hello.serialize();
    let deserialized = ServerHello::deserialize(&serialized).unwrap();

    assert_eq!(server_hello.server_public_key, deserialized.server_public_key);
    assert_eq!(server_hello.server_random, deserialized.server_random);
    assert_eq!(server_hello.session_id, deserialized.session_id);
}

#[test]
fn test_full_handshake() {
    let mut client = ClientHandshake::new(X25519Key::generate(), MimicryProfile::VkVideo);
    let mut server = ServerHandshake::new(X25519Key::generate(), 12345);

    let client_hello_msg = client.start(&random_bytes(32)).unwrap();

    let (server_hello_msg, profile) = server
        .process_client_hello(&client_hello_msg, &random_bytes(32))
        .unwrap();
    assert_eq!(profile, MimicryProfile::VkVideo);

    let session_id = client.process_server_hello(&server_hello_msg).unwrap();
    assert_eq!(session_id, 12345);

    let client_verify_msg = client.send_client_verify().unwrap();
    server.process_client_verify(&client_verify_msg).unwrap();

    let server_verify_msg = server.send_server_verify().unwrap();
    client.process_server_verify(&server_verify_msg).unwrap();

    assert!(client.is_completed());
    assert!(server.is_completed());

    let client_key = client.session_key().unwrap();
    let server_key = server.session_key().unwrap();
    assert_eq!(client_key.as_bytes(), server_key.as_bytes());
}

#[test]
fn test_handshake_invalid_state() {
    let mut client = ClientHandshake::new(X25519Key::generate(), MimicryProfile::Plain);

    // a ClientVerify before any ServerHello is out of order
    let result = client.send_client_verify();
    assert!(result.is_err());
}

#[test]
fn test_handshake_wrong_hmac() {
    let mut client = ClientHandshake::new(X25519Key::generate(), MimicryProfile::Plain);
    let mut server = ServerHandshake::new(X25519Key::generate(), 1);

    let client_hello_msg = client.start(&random_bytes(32)).unwrap();
    let (server_hello_msg, _) = server
        .process_client_hello(&client_hello_msg, &random_bytes(32))
        .unwrap();
    client.process_server_hello(&server_hello_msg).unwrap();

    // a forged ClientVerify carrying a constant tag
    let fake_verify = ClientVerify { hmac_tag: vec![0xAAu8; 32] };
    let fake_msg = fake_verify.serialize();

    let result = server.process_client_verify(&fake_msg);
    assert!(result.is_err());
}

#[test]
fn test_session_key_hidden_before_completion() {
    // the session key is observable only once the handshake completed
    let mut client = ClientHandshake::new(X25519Key::generate(), MimicryProfile::Plain);
    let mut server = ServerHandshake::new(X25519Key::generate(), 9);

    assert!(client.session_key().is_none());
    assert!(server.session_key().is_none());

    let hello = client.start(&random_bytes(32)).unwrap();
    assert!(client.session_key().is_none());

    let (server_hello, _) = server.process_client_hello(&hello, &random_bytes(32)).unwrap();
    assert!(server.session_key().is_none());

    client.process_server_hello(&server_hello).unwrap();
    assert!(client.session_key().is_none());

    let verify = client.send_client_verify().unwrap();
    assert!(client.session_key().is_none());

    server.process_client_verify(&verify).unwrap();
    assert!(server.session_key().is_none());

    let server_verify = server.send_server_verify().unwrap();
    assert!(server.session_key().is_some());

    client.process_server_verify(&server_verify).unwrap();
    assert!(client.session_key().is_some());
}

#[test]
fn test_handshake_message_too_short() {
    let mut server = ServerHandshake::new(X25519Key::generate(), 2);
    let result = server.process_client_hello(&[1u8; 10], &random_bytes(32));
    assert!(result.is_err());
}

#[test]
fn test_handshake_wrong_message_type() {
    let mut client = ClientHandshake::new(X25519Key::generate(), MimicryProfile::Plain);
    let _ = client.start(&random_bytes(32)).unwrap();
    // a buffer long enough for a ServerHello but tagged as a ClientHello
    let mut bogus = vec![0u8; 73];
    bogus[0] = 1;
    let result = client.process_server_hello(&bogus);
    assert!(result.is_err());
}
