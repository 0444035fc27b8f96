//! Tests of sessions: encryption with sequence numbers, anti-replay,
//! timestamps, keepalive bookkeeping, and the session registry.

use llp::crypto::SessionKey;
use llp::errors::{LlpError, SessionError};
use llp::packet::MimicryProfile;
use llp::session::{ReplayWindow, Session, SessionManager, MAX_TIMESTAMP_DRIFT_SECS};

const NOW: u64 = 1_700_000_000;

#[test]
fn test_session_creation() {
    let key = SessionKey::random();
    let session = Session::new(12345, key, MimicryProfile::VkVideo, NOW);

    assert_eq!(session.session_id(), 12345);
    assert_eq!(session.mimicry_profile(), MimicryProfile::VkVideo);
    assert_eq!(session.current_tx_sequence(), 0);
}

#[test]
fn test_encrypt_decrypt() {
    let key = SessionKey::random();
    let mut session = Session::new(1, key, MimicryProfile::Plain, NOW);

    let plaintext = b"Hello, LLP!";
    let aad = b"additional data";

    let (ciphertext, seq) = session.encrypt_payload(plaintext, aad, NOW).unwrap();
    assert_eq!(seq, 0);

    let decrypted = session.decrypt_payload(&ciphertext, aad, seq, NOW).unwrap();
    assert_eq!(&decrypted, plaintext);
}

#[test]
fn test_replay_protection() {
    let key = SessionKey::random();
    let mut session = Session::new(1, key, MimicryProfile::Plain, NOW);

    let plaintext = b"test";
    let aad = b"aad";

    let (ciphertext, seq) = session.encrypt_payload(plaintext, aad, NOW).unwrap();

    let result1 = session.decrypt_payload(&ciphertext, aad, seq, NOW);
    assert!(result1.is_ok());

    let result2 = session.decrypt_payload(&ciphertext, aad, seq, NOW);
    assert!(result2.is_err());
}

#[test]
fn test_replay_window() {
    let mut window = ReplayWindow::new(256);

    assert!(window.check_and_update(0));

    assert!(window.check_and_update(1));
    assert!(window.check_and_update(2));

    assert!(!window.check_and_update(1));

    assert!(window.check_and_update(5));
    assert!(window.check_and_update(3));

    assert!(window.check_and_update(300));

    assert!(!window.check_and_update(10));
}

#[test]
fn test_replay_window_boundaries() {
    // with the window full at highest = 1000: the highest itself is a
    // duplicate, the oldest in-window slot is accepted exactly once, and
    // anything below the window is rejected
    let mut window = ReplayWindow::new(256);
    assert!(window.check_and_update(1000));
    assert!(!window.check_and_update(1000));
    // oldest sequence still inside the window of width 256: 1000 - 255
    assert!(window.check_and_update(745));
    assert!(!window.check_and_update(745));
    // just below the window
    assert!(!window.check_and_update(744));
}

#[test]
fn test_timestamp_validation() {
    let key = SessionKey::random();
    let session = Session::new(1, key, MimicryProfile::Plain, NOW);

    let now = NOW as u32;

    assert!(session.validate_timestamp(now, NOW).is_ok());
    assert!(session.validate_timestamp(now + 60, NOW).is_ok());

    let old_timestamp = now - (MAX_TIMESTAMP_DRIFT_SECS as u32 + 100);
    assert!(session.validate_timestamp(old_timestamp, NOW).is_err());

    let future_timestamp = now + (MAX_TIMESTAMP_DRIFT_SECS as u32 + 100);
    assert!(session.validate_timestamp(future_timestamp, NOW).is_err());
}

#[test]
fn test_timestamp_drift_boundary() {
    // exactly the allowed drift is accepted, one second more is rejected
    let key = SessionKey::random();
    let session = Session::new(1, key, MimicryProfile::Plain, NOW);
    let now = NOW as u32;
    let drift = MAX_TIMESTAMP_DRIFT_SECS as u32;

    assert!(session.validate_timestamp(now - drift, NOW).is_ok());
    assert!(session.validate_timestamp(now + drift, NOW).is_ok());
    assert!(session.validate_timestamp(now - drift - 1, NOW).is_err());
    assert!(session.validate_timestamp(now + drift + 1, NOW).is_err());
}

#[test]
fn test_keepalive_tracking() {
    let key = SessionKey::random();
    let mut session = Session::new(1, key, MimicryProfile::Plain, NOW);

    assert!(!session.needs_keepalive(NOW));
    assert!(!session.is_keepalive_timeout(NOW));

    // half a minute of silence wants a keepalive; a minute and a half is a timeout
    assert!(session.needs_keepalive(NOW + 31));
    assert!(!session.is_keepalive_timeout(NOW + 31));
    assert!(session.is_keepalive_timeout(NOW + 91));

    session.mark_keepalive_received(NOW + 91);
    assert!(!session.is_keepalive_timeout(NOW + 91));
}

#[test]
fn test_session_manager() {
    let mut manager = SessionManager::new();

    let key1 = SessionKey::random();
    let key2 = SessionKey::random();

    manager.add_session(1, key1, MimicryProfile::VkVideo, NOW).unwrap();
    manager.add_session(2, key2, MimicryProfile::YandexMusic, NOW).unwrap();

    assert_eq!(manager.session_count(), 2);
    assert!(manager.has_session(1));
    assert!(manager.has_session(2));

    let session = manager.get_session(1).unwrap();
    assert_eq!(session.session_id(), 1);

    manager.remove_session(1).unwrap();
    assert_eq!(manager.session_count(), 1);
    assert!(!manager.has_session(1));
}

#[test]
fn test_session_already_exists() {
    let mut manager = SessionManager::new();

    let key = SessionKey::random();

    manager.add_session(1, key.clone(), MimicryProfile::Plain, NOW).unwrap();

    let result = manager.add_session(1, key, MimicryProfile::Plain, NOW);
    assert!(result.is_err());
}

#[test]
fn test_session_not_found() {
    let manager = SessionManager::new();
    let result = manager.get_session(999);
    assert!(result.is_err());
}

#[test]
fn test_cleanup_expired() {
    let mut manager = SessionManager::with_lifetime(100);
    manager.add_session(1, SessionKey::random(), MimicryProfile::Plain, NOW).unwrap();
    manager.add_session(2, SessionKey::random(), MimicryProfile::Plain, NOW + 95).unwrap();

    // session 1's keepalive (at NOW) has timed out 95 seconds later;
    // session 2 is fresh
    let removed = manager.cleanup_expired(NOW + 95);
    assert_eq!(removed, 1);
    assert!(!manager.has_session(1));
    assert!(manager.has_session(2));
}

#[test]
fn test_sessions_needing_keepalive() {
    let mut manager = SessionManager::new();
    manager.add_session(1, SessionKey::random(), MimicryProfile::Plain, NOW).unwrap();
    manager.add_session(2, SessionKey::random(), MimicryProfile::Plain, NOW + 40).unwrap();

    let ids = manager.sessions_needing_keepalive(NOW + 40);
    assert_eq!(ids, vec![1]);
    assert_eq!(manager.sessions_needing_rekey(), Vec::<u64>::new());
}

#[test]
fn test_sequence_error_kinds() {
    // a rejected sequence names its reason: duplicate inside the window,
    // or a sequence that fell below it
    let key = SessionKey::random();
    let mut session = Session::new(5, key.clone(), MimicryProfile::Plain, NOW);
    let aad = b"";

    // a twin session with the same key produces the ciphertexts
    let mut source = Session::new(5, key, MimicryProfile::Plain, NOW);
    let mut by_seq: Vec<Vec<u8>> = Vec::new();
    for _ in 0..=1000 {
        let (ct, _seq) = source.encrypt_payload(b"x", aad, NOW).unwrap();
        by_seq.push(ct);
    }
    session.decrypt_payload(&by_seq[1000], aad, 1000, NOW).unwrap();

    // the highest again: a duplicate
    let dup = session.decrypt_payload(&by_seq[1000], aad, 1000, NOW);
    assert_eq!(
        dup.unwrap_err(),
        LlpError::SessionError(SessionError::DuplicateSequenceNumber { session_id: 5, seq: 1000 })
    );

    // far below the window
    let below = session.decrypt_payload(&by_seq[100], aad, 100, NOW);
    assert_eq!(
        below.unwrap_err(),
        LlpError::SessionError(SessionError::SequenceOutOfWindow { session_id: 5, seq: 100 })
    );
}
