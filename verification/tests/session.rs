use wrist_hello::auth_session::{AuthSession, SessionError};

#[test]
fn new_session_is_never_verified() {
    let s = AuthSession::new(60);
    assert!(!s.is_verified_at(0));
    assert!(!s.is_verified_at(1_000));
}

#[test]
fn marked_session_holds_for_ttl() {
    let mut s = AuthSession::new(60);
    s.mark_verified_at(1_000);
    assert!(s.is_verified_at(1_000));
    assert!(s.is_verified_at(1_059));
    assert!(!s.is_verified_at(1_060));
    assert!(!s.is_verified_at(5_000));
}

#[test]
fn zero_ttl_disables_session_cache() {
    let mut s = AuthSession::new(0);
    s.mark_verified_at(1_000);
    assert!(!s.is_verified_at(1_000));
    assert!(!s.is_verified_at(1_001));
}

#[test]
fn mark_verified_with_clock_failure_leaves_session() {
    let mut s = AuthSession::new(60);
    assert_eq!(s.mark_verified_with(None), Err(SessionError::ClockUnavailable));
    assert!(!s.is_verified_at(10));
}

#[test]
fn mark_verified_with_overflowing_expiry_is_refused() {
    let mut s = AuthSession::new(10);
    assert_eq!(s.mark_verified_with(Some(u64::MAX - 5)), Err(SessionError::ExpiryOverflow));
    assert!(!s.is_verified_at(0));
    assert_eq!(s.mark_verified_with(Some(u64::MAX - 10)), Ok(()));
    assert!(s.is_verified_at(u64::MAX - 1));
}

#[test]
fn mark_verified_reads_the_clock() {
    let mut s = AuthSession::new(3_600);
    assert_eq!(s.is_verified(), Ok(false));
    assert_eq!(s.mark_verified(), Ok(()));
    assert_eq!(s.is_verified(), Ok(true));
}

#[test]
fn mark_verified_with_zero_ttl_is_not_verified_now() {
    let mut s = AuthSession::new(0);
    assert_eq!(s.mark_verified(), Ok(()));
    assert_eq!(s.is_verified(), Ok(false));
}
