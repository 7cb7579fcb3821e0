use wrist_hello::auth_caches::{AuthCache, AuthCaches, CacheError};

fn cache(uid: u32, tty: &str, service: &str, expires_at: i64) -> AuthCache {
    AuthCache { uid, tty: tty.as_bytes().to_vec(), service: service.as_bytes().to_vec(), expires_at }
}

#[test]
fn put_grows_the_list() {
    let mut c = AuthCaches::default();
    assert_eq!(c.inner_length(), 0);
    c.put(cache(1000, "pts/0", "sudo", 100));
    c.put(cache(1000, "pts/1", "sudo", 100));
    assert_eq!(c.inner_length(), 2);
}

#[test]
fn lookup_finds_unexpired_matching_record() {
    let mut c = AuthCaches::default();
    c.put(cache(1000, "pts/0", "sudo", 100));
    let found = c.verify_auth_cache_at(&cache(1000, "pts/0", "sudo", 0), 99).expect("found");
    assert_eq!(found.uid, 1000);
    assert_eq!(found.expires_at, 100);
    assert!(c.verify_auth_cache_at(&cache(1000, "pts/0", "sudo", 0), 100).is_none());
}

#[test]
fn lookup_requires_same_user_terminal_and_service() {
    let mut c = AuthCaches::default();
    c.put(cache(1000, "pts/0", "sudo", 100));
    assert!(c.verify_auth_cache_at(&cache(1001, "pts/0", "sudo", 0), 10).is_none());
    assert!(c.verify_auth_cache_at(&cache(1000, "pts/1", "sudo", 0), 10).is_none());
    assert!(c.verify_auth_cache_at(&cache(1000, "pts/0", "login", 0), 10).is_none());
}

#[test]
fn lookup_returns_first_valid_record() {
    let mut c = AuthCaches::default();
    c.put(cache(1000, "pts/0", "sudo", 5));
    c.put(cache(1000, "pts/0", "sudo", 50));
    c.put(cache(1000, "pts/0", "sudo", 70));
    let found = c.verify_auth_cache_at(&cache(1000, "pts/0", "sudo", 0), 10).expect("found");
    assert_eq!(found.expires_at, 50);
}

#[test]
fn purge_keeps_only_unexpired_records_in_order() {
    let mut c = AuthCaches::default();
    c.put(cache(1, "a", "s", 5));
    c.put(cache(2, "a", "s", 50));
    c.put(cache(3, "a", "s", 10));
    c.put(cache(4, "a", "s", 70));
    c.remove_expired_caches_at(10);
    assert_eq!(c.inner_length(), 2);
    assert_eq!(c.verify_auth_cache_at(&cache(2, "a", "s", 0), 10).unwrap().expires_at, 50);
    assert_eq!(c.verify_auth_cache_at(&cache(4, "a", "s", 0), 10).unwrap().expires_at, 70);
    assert!(c.verify_auth_cache_at(&cache(3, "a", "s", 0), 9).is_none());
}

#[test]
fn purge_does_not_change_lookups_at_same_time() {
    let mut c = AuthCaches::default();
    c.put(cache(1, "a", "s", 5));
    c.put(cache(1, "a", "s", 20));
    let before = c.verify_auth_cache_at(&cache(1, "a", "s", 0), 10).map(|x| x.expires_at);
    c.remove_expired_caches_at(10);
    let after = c.verify_auth_cache_at(&cache(1, "a", "s", 0), 10).map(|x| x.expires_at);
    assert_eq!(before, Some(20));
    assert_eq!(before, after);
}

#[test]
fn lookup_with_clock_uses_current_time() {
    let mut c = AuthCaches::default();
    c.put(cache(1000, "tty1", "login", i64::MAX));
    c.put(cache(1001, "tty1", "login", 1));
    assert_eq!(c.verify_auth_cache(&cache(1000, "tty1", "login", 0)).map(|x| x.uid), Ok(1000));
    assert_eq!(c.verify_auth_cache(&cache(1001, "tty1", "login", 0)).map(|x| x.uid), Err(CacheError::NotFound));
    assert_eq!(c.remove_expired_caches(), Ok(()));
    assert_eq!(c.inner_length(), 1);
}
