use wrist_hello::current_challenge::{ChallengeError, CurrentChallenge};

#[test]
fn fresh_challenge_is_not_set() {
    let c = CurrentChallenge::default();
    assert_eq!(c.peek(), Err(ChallengeError::NotSet));
}

#[test]
fn refresh_then_peek_returns_the_challenge() {
    let mut c = CurrentChallenge::default();
    let ch = c.refresh();
    assert_eq!(c.peek(), Ok(ch));
    assert_eq!(ch.len(), 32);
}

#[test]
fn matching_response_consumes_challenge_once() {
    let mut c = CurrentChallenge::default();
    let ch = c.refresh();
    assert_eq!(c.take_if_matches(&ch), Ok(true));
    assert_eq!(c.peek(), Err(ChallengeError::NotSet));
    assert_eq!(c.take_if_matches(&ch), Err(ChallengeError::NotSet));
}

#[test]
fn mismatching_response_keeps_challenge() {
    let mut c = CurrentChallenge::default();
    let ch = c.refresh();
    let mut other = ch;
    other[0] ^= 0xff;
    assert_eq!(c.take_if_matches(&other), Ok(false));
    assert_eq!(c.peek(), Ok(ch));
    assert_eq!(c.take_if_matches(&ch[..31]), Ok(false));
}

#[test]
fn refresh_replaces_challenge() {
    let mut c = CurrentChallenge::default();
    let first = c.refresh();
    let second = c.refresh();
    assert_eq!(c.peek(), Ok(second));
    if first != second {
        assert_eq!(c.take_if_matches(&first), Ok(false));
    }
}
