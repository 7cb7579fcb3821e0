use std::sync::atomic::{AtomicBool, Ordering};
use std::sync::Arc;

use wrist_hello::config::{default_auth_cache_ttl_seconds, AppConfig, HexError};
use wrist_hello::notify_ready_guard::NotifyReadyGuard;
use wrist_hello::socket_server::{is_peer_root, SOCKET_PATH};
use wrist_hello::verification_handler::{is_cancel_signal, verdict_reply};

#[test]
fn default_ttl_is_zero() {
    assert_eq!(default_auth_cache_ttl_seconds(), Some(0));
}

#[test]
fn config_decodes_hex_key() {
    let config = AppConfig::from_parsed("3059aB".to_string(), Some(5)).unwrap();
    assert_eq!(config.public_key_der_hex, vec![0x30, 0x59, 0xab]);
    assert_eq!(config.public_key_der, "3059aB");
    assert_eq!(config.auth_cache_ttl_seconds, Some(5));
}

#[test]
fn config_reports_hex_errors() {
    assert!(matches!(AppConfig::from_parsed("305".to_string(), None), Err(HexError::OddLength)));
    assert!(matches!(
        AppConfig::from_parsed("30zz".to_string(), None),
        Err(HexError::InvalidHexCharacter { c: 'z', index: 2 })
    ));
    assert!(matches!(
        AppConfig::from_parsed("3 0g".to_string(), None),
        Err(HexError::InvalidHexCharacter { c: ' ', index: 1 })
    ));
}

#[test]
fn reply_bytes() {
    assert_eq!(verdict_reply(Some(true)), [0u8]);
    assert_eq!(verdict_reply(Some(false)), [1u8]);
    assert_eq!(verdict_reply(None), [1u8]);
}

#[test]
fn cancel_signal_is_recognized() {
    assert!(is_cancel_signal(Some(3), 3));
    assert!(!is_cancel_signal(Some(4), 3));
    assert!(!is_cancel_signal(None, 3));
    assert!(is_cancel_signal(None, 0));
}

#[test]
fn guard_raises_and_lowers_flag() {
    let flag = Arc::new(AtomicBool::new(false));
    let guard = NotifyReadyGuard::new(flag.clone());
    assert!(flag.load(Ordering::SeqCst));
    drop(guard);
    assert!(!flag.load(Ordering::SeqCst));
}

#[test]
fn only_root_peers_may_connect() {
    assert!(is_peer_root(0));
    assert!(!is_peer_root(1000));
    assert_eq!(SOCKET_PATH, "/run/wrist-hello/auth.sock");
}
