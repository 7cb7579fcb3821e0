use wrist_hello::pending_notifications::{AuthResult, PendingNotifications};

#[test]
fn add_one_returns_hyphenated_uuid() {
    let mut p = PendingNotifications::default();
    let (tx, _rx) = tokio::sync::oneshot::channel();
    let id = p.add_one(tx);
    assert_eq!(id.len(), 36);
    for (i, ch) in id.chars().enumerate() {
        if i == 8 || i == 13 || i == 18 || i == 23 {
            assert_eq!(ch, '-');
        } else {
            assert!(ch.is_ascii_hexdigit() && !ch.is_ascii_uppercase());
        }
    }
}

#[test]
fn notify_all_delivers_success_to_everyone() {
    let mut p = PendingNotifications::default();
    let (tx1, mut rx1) = tokio::sync::oneshot::channel();
    let (tx2, mut rx2) = tokio::sync::oneshot::channel();
    p.add_one(tx1);
    p.add_one(tx2);
    assert_eq!(p.notify_all(), 2);
    assert_eq!(rx1.try_recv(), Ok(AuthResult::Success));
    assert_eq!(rx2.try_recv(), Ok(AuthResult::Success));
    assert_eq!(p.notify_all(), 0);
}

#[test]
fn fail_all_delivers_denial() {
    let mut p = PendingNotifications::default();
    let (tx, mut rx) = tokio::sync::oneshot::channel();
    p.add_one(tx);
    assert_eq!(p.fail_all(), 1);
    assert_eq!(rx.try_recv(), Ok(AuthResult::Denied));
}

#[test]
fn remove_one_forgets_only_that_worker() {
    let mut p = PendingNotifications::default();
    let (tx1, mut rx1) = tokio::sync::oneshot::channel();
    let (tx2, mut rx2) = tokio::sync::oneshot::channel();
    let id1 = p.add_one(tx1);
    let _id2 = p.add_one(tx2);
    p.remove_one(&id1);
    assert!(rx1.try_recv().is_err());
    assert_eq!(p.notify_all(), 1);
    assert_eq!(rx2.try_recv(), Ok(AuthResult::Success));
}

#[test]
fn sending_to_a_departed_worker_is_harmless() {
    let mut p = PendingNotifications::default();
    let (tx, rx) = tokio::sync::oneshot::channel();
    p.add_one(tx);
    drop(rx);
    assert_eq!(p.notify_all(), 1);
}

#[test]
fn notify_all_then_fail_all_hand_each_worker_its_result() {
    let mut p = PendingNotifications::default();
    let (tx1, mut rx1) = tokio::sync::oneshot::channel();
    p.add_one(tx1);
    assert_eq!(p.fail_all(), 1);
    let (tx2, mut rx2) = tokio::sync::oneshot::channel();
    p.add_one(tx2);
    assert_eq!(p.notify_all(), 1);
    assert_eq!(rx1.try_recv(), Ok(AuthResult::Denied));
    assert_eq!(rx2.try_recv(), Ok(AuthResult::Success));
}

#[test]
fn removed_worker_is_never_notified_and_others_keep_their_senders() {
    let mut p = PendingNotifications::default();
    let (tx1, mut rx1) = tokio::sync::oneshot::channel();
    let (tx2, mut rx2) = tokio::sync::oneshot::channel();
    let (tx3, mut rx3) = tokio::sync::oneshot::channel();
    p.add_one(tx1);
    let id2 = p.add_one(tx2);
    p.add_one(tx3);
    p.remove_one(&id2);
    assert_eq!(p.fail_all(), 2);
    assert_eq!(rx1.try_recv(), Ok(AuthResult::Denied));
    assert!(rx2.try_recv().is_err());
    assert_eq!(rx3.try_recv(), Ok(AuthResult::Denied));
}
