use wrist_hello::auth_processor::{
    challenge_for_cancel, cancelled_before_processing, next_work, NextWork, VerificationAction, VerificationEvent,
    VerificationRun, handle_wrist_result, handle_wrist_result_with,
    precheck_verification, precheck_verification_with, skips_request, AuthRequest, AuthResult, CancelState,
    RequestQueue, WristOutcome,
};
use wrist_hello::auth_session::AuthSession;
use wrist_hello::current_challenge::{ChallengeError, CurrentChallenge};
use wrist_hello::identity::AuthIdentity;

fn identity(uid: u32, tty: &str) -> AuthIdentity {
    AuthIdentity { uid, tty: tty.as_bytes().to_vec(), service: b"sudo".to_vec() }
}

fn request(uid: u32, tty: &str) -> (AuthRequest, tokio::sync::oneshot::Sender<()>) {
    let (result_tx, _result_rx) = tokio::sync::mpsc::channel(1);
    let (cancel_tx, cancel_rx) = tokio::sync::oneshot::channel();
    (AuthRequest { identity: identity(uid, tty), result_tx, cancel_rx }, cancel_tx)
}

#[test]
fn granted_answer_with_current_challenge_verifies() {
    let mut ch = CurrentChallenge::default();
    let c = ch.refresh();
    let mut s = AuthSession::new(30);
    let ok = handle_wrist_result_with(&mut ch, &mut s, WristOutcome::Received(AuthResult::Success { challenge: c }), Some(100));
    assert!(ok);
    assert_eq!(ch.peek(), Err(ChallengeError::NotSet));
    assert!(s.is_verified_at(129));
    assert!(!s.is_verified_at(130));
}

#[test]
fn granted_answer_with_stale_challenge_fails() {
    let mut ch = CurrentChallenge::default();
    let c = ch.refresh();
    let mut stale = c;
    stale[5] ^= 1;
    let mut s = AuthSession::new(30);
    let ok = handle_wrist_result_with(&mut ch, &mut s, WristOutcome::Received(AuthResult::Success { challenge: stale }), Some(100));
    assert!(!ok);
    assert_eq!(ch.peek(), Ok(c));
    assert!(!s.is_verified_at(100));
}

#[test]
fn denied_answer_consumes_challenge_without_verifying() {
    let mut ch = CurrentChallenge::default();
    let c = ch.refresh();
    let mut s = AuthSession::new(30);
    let ok = handle_wrist_result_with(&mut ch, &mut s, WristOutcome::Received(AuthResult::Denied { challenge: c }), Some(100));
    assert!(!ok);
    assert_eq!(ch.peek(), Err(ChallengeError::NotSet));
    assert!(!s.is_verified_at(100));
}

#[test]
fn closed_channel_and_timeout_fail() {
    let mut ch = CurrentChallenge::default();
    let c = ch.refresh();
    let mut s = AuthSession::new(30);
    assert!(!handle_wrist_result_with(&mut ch, &mut s, WristOutcome::ChannelClosed, Some(1)));
    assert!(!handle_wrist_result_with(&mut ch, &mut s, WristOutcome::TimedOut, Some(1)));
    assert_eq!(ch.peek(), Ok(c));
}

#[test]
fn granted_answer_without_clock_fails_but_consumes() {
    let mut ch = CurrentChallenge::default();
    let c = ch.refresh();
    let mut s = AuthSession::new(30);
    assert!(!handle_wrist_result_with(&mut ch, &mut s, WristOutcome::Received(AuthResult::Success { challenge: c }), None));
    assert_eq!(ch.peek(), Err(ChallengeError::NotSet));
}

#[test]
fn granted_answer_with_clock_verifies_session() {
    let mut ch = CurrentChallenge::default();
    let c = ch.refresh();
    let mut s = AuthSession::new(3_600);
    assert!(handle_wrist_result(&mut ch, &mut s, WristOutcome::Received(AuthResult::Success { challenge: c })));
    assert_eq!(s.is_verified(), Ok(true));
    assert_eq!(precheck_verification(&s, false), Some(true));
}

#[test]
fn precheck_decisions() {
    let mut s = AuthSession::new(10);
    assert_eq!(precheck_verification_with(&s, true, Some(5)), None);
    assert_eq!(precheck_verification_with(&s, false, Some(5)), Some(false));
    s.mark_verified_at(5);
    assert_eq!(precheck_verification_with(&s, false, Some(6)), Some(true));
    assert_eq!(precheck_verification_with(&s, true, Some(15)), None);
    assert_eq!(precheck_verification_with(&s, false, None), Some(false));
    assert_eq!(precheck_verification(&AuthSession::new(10), true), None);
}

#[test]
fn cancel_uses_outstanding_challenge() {
    let mut ch = CurrentChallenge::default();
    assert_eq!(challenge_for_cancel(&ch), None);
    let c = ch.refresh();
    assert_eq!(challenge_for_cancel(&ch), Some(c));
}

#[test]
fn queue_rejects_duplicate_identity() {
    let mut q = RequestQueue::default();
    let (a, _ca) = request(1000, "pts/0");
    let (b, _cb) = request(1000, "pts/0");
    let (c, _cc) = request(1000, "pts/1");
    assert!(q.enqueue(a).is_ok());
    let back = q.enqueue(b).err().expect("duplicate handed back");
    assert_eq!(back.identity.uid, 1000);
    assert!(q.enqueue(c).is_ok());
    assert_eq!(q.len(), 2);
}

#[test]
fn queue_is_first_come_first_served() {
    let mut q = RequestQueue::default();
    assert!(q.is_empty());
    assert!(q.pop_next().is_none());
    let (a, _ca) = request(1, "a");
    let (b, _cb) = request(2, "b");
    assert!(q.enqueue(a).is_ok());
    assert!(q.enqueue(b).is_ok());
    assert_eq!(q.pop_next().unwrap().identity.uid, 1);
    assert_eq!(q.pop_next().unwrap().identity.uid, 2);
    assert!(q.is_empty());
}

#[test]
fn cancellation_before_processing() {
    assert!(skips_request(CancelState::Signalled));
    assert!(skips_request(CancelState::Closed));
    assert!(!skips_request(CancelState::Pending));
    let (mut pending, _keep) = request(1, "a");
    assert!(!cancelled_before_processing(&mut pending));
    let (mut signalled, tx) = request(2, "b");
    tx.send(()).unwrap();
    assert!(cancelled_before_processing(&mut signalled));
    let (mut gone, tx) = request(3, "c");
    drop(tx);
    assert!(cancelled_before_processing(&mut gone));
}

#[test]
fn identities_compare_by_every_field() {
    let a = identity(1, "pts/0");
    assert!(a.same_identity(&a.clone()));
    assert!(!a.same_identity(&identity(2, "pts/0")));
    assert!(!a.same_identity(&identity(1, "pts/1")));
}

#[test]
fn processor_turns() {
    let mut q = RequestQueue::default();
    assert!(matches!(next_work(&mut q, None), NextWork::Idle));
    let (a, _ca) = request(1, "a");
    match next_work(&mut q, Some(a)) {
        NextWork::Verify(r) => assert_eq!(r.identity.uid, 1),
        _ => panic!("expected verify"),
    }
    let (b, _cb) = request(2, "b");
    let (c, cc) = request(3, "c");
    assert!(q.enqueue(b).is_ok());
    let (dup, _cd) = request(2, "b");
    match next_work(&mut q, Some(dup)) {
        NextWork::RejectDuplicate(r) => assert_eq!(r.identity.uid, 2),
        _ => panic!("expected duplicate"),
    }
    assert_eq!(q.len(), 1);
    drop(cc);
    match next_work(&mut q, Some(c)) {
        NextWork::Verify(r) => assert_eq!(r.identity.uid, 2),
        _ => panic!("expected verify of the oldest"),
    }
    match next_work(&mut q, None) {
        NextWork::Skip(r) => assert_eq!(r.identity.uid, 3),
        _ => panic!("expected skip of the cancelled"),
    }
    assert!(q.is_empty());
}

#[test]
fn verification_run_with_verified_session_answers_at_once() {
    let mut s = AuthSession::new(3_600);
    s.mark_verified().unwrap();
    let (_run, action) = VerificationRun::start(&s, false);
    assert!(matches!(action, VerificationAction::Answer(Some(true))));
    let (_run, action) = VerificationRun::start(&AuthSession::new(0), false);
    assert!(matches!(action, VerificationAction::Answer(Some(false))));
}

#[test]
fn verification_run_granted() {
    let mut ch = CurrentChallenge::default();
    let mut s = AuthSession::new(3_600);
    let (mut run, action) = VerificationRun::start(&s, true);
    assert!(matches!(action, VerificationAction::DrainStaleResults));
    assert!(matches!(run.step(&mut ch, &mut s, VerificationEvent::Drained), VerificationAction::TriggerWatch));
    let c = ch.peek().expect("a fresh challenge");
    assert!(matches!(run.step(&mut ch, &mut s, VerificationEvent::Triggered), VerificationAction::AwaitOutcome));
    let answer = WristOutcome::Received(AuthResult::Success { challenge: c });
    assert!(matches!(run.step(&mut ch, &mut s, VerificationEvent::Outcome(answer)), VerificationAction::Answer(Some(true))));
    assert_eq!(s.is_verified(), Ok(true));
    assert_eq!(ch.peek(), Err(ChallengeError::NotSet));
}

#[test]
fn verification_run_timed_out() {
    let mut ch = CurrentChallenge::default();
    let mut s = AuthSession::new(3_600);
    let (mut run, _) = VerificationRun::start(&s, true);
    run.step(&mut ch, &mut s, VerificationEvent::Drained);
    run.step(&mut ch, &mut s, VerificationEvent::Triggered);
    assert!(matches!(
        run.step(&mut ch, &mut s, VerificationEvent::Outcome(WristOutcome::TimedOut)),
        VerificationAction::Answer(Some(false))
    ));
    assert_eq!(s.is_verified(), Ok(false));
}

#[test]
fn verification_run_cancelled() {
    let mut ch = CurrentChallenge::default();
    let mut s = AuthSession::new(3_600);
    let (mut run, _) = VerificationRun::start(&s, true);
    run.step(&mut ch, &mut s, VerificationEvent::Drained);
    let c = ch.peek().unwrap();
    run.step(&mut ch, &mut s, VerificationEvent::Triggered);
    match run.step(&mut ch, &mut s, VerificationEvent::Cancelled) {
        VerificationAction::NotifyCancel(sent) => assert_eq!(sent, c),
        _ => panic!("expected a cancel notice"),
    }
    assert!(matches!(run.step(&mut ch, &mut s, VerificationEvent::CancelSent), VerificationAction::Answer(None)));
    assert_eq!(ch.peek(), Ok(c));
}
