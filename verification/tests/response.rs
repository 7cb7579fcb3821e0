use p256::ecdsa::signature::Signer;
use p256::ecdsa::{Signature, SigningKey};
use p256::pkcs8::EncodePublicKey;
use wrist_hello::auth_processor::AuthResult;
use wrist_hello::current_challenge::{ChallengeError, CurrentChallenge};
use wrist_hello::response_char::{classify_response, handle_response_write, ResponseError};

fn key() -> SigningKey {
    SigningKey::from_slice(&[7u8; 32]).unwrap()
}

fn public_key_der() -> Vec<u8> {
    key().verifying_key().to_public_key_der().unwrap().as_bytes().to_vec()
}

fn sign(message: &[u8]) -> Vec<u8> {
    let signature: Signature = key().sign(message);
    signature.to_der().as_bytes().to_vec()
}

#[test]
fn deny_response_is_recognized() {
    let mut ch = CurrentChallenge::default();
    let c = ch.refresh();
    let mut value = vec![0u8];
    value.extend_from_slice(&c);
    match handle_response_write(&value, &ch, &public_key_der()) {
        Ok(AuthResult::Denied { challenge }) => assert_eq!(challenge, c),
        _ => panic!("expected a denial"),
    }
    assert_eq!(ch.peek(), Ok(c));
}

#[test]
fn deny_response_of_wrong_length_is_refused() {
    let ch = CurrentChallenge::default();
    assert!(matches!(handle_response_write(&[0u8; 5], &ch, &public_key_der()), Err(ResponseError::InvalidDenyLength)));
    assert!(matches!(handle_response_write(&[0u8; 34], &ch, &public_key_der()), Err(ResponseError::InvalidDenyLength)));
    assert!(matches!(handle_response_write(&[0u8], &ch, &public_key_der()), Err(ResponseError::InvalidDenyLength)));
}

#[test]
fn valid_signature_grants_the_challenge() {
    let mut ch = CurrentChallenge::default();
    let c = ch.refresh();
    let sig = sign(&c);
    match handle_response_write(&sig, &ch, &public_key_der()) {
        Ok(AuthResult::Success { challenge }) => assert_eq!(challenge, c),
        _ => panic!("expected success"),
    }
}

#[test]
fn signature_over_other_message_is_rejected() {
    let mut ch = CurrentChallenge::default();
    let c = ch.refresh();
    let mut other = c;
    other[0] ^= 1;
    let sig = sign(&other);
    assert!(matches!(handle_response_write(&sig, &ch, &public_key_der()), Err(ResponseError::SignatureRejected)));
}

#[test]
fn malformed_key_or_signature_is_rejected() {
    let mut ch = CurrentChallenge::default();
    let c = ch.refresh();
    let sig = sign(&c);
    assert!(matches!(handle_response_write(&sig, &ch, &[1, 2, 3]), Err(ResponseError::SignatureRejected)));
    assert!(matches!(handle_response_write(&[0x30, 0x01, 0x02], &ch, &public_key_der()), Err(ResponseError::SignatureRejected)));
}

#[test]
fn signature_without_challenge_is_refused() {
    let ch = CurrentChallenge::default();
    let sig = sign(&[0u8; 32]);
    assert!(matches!(handle_response_write(&sig, &ch, &public_key_der()), Err(ResponseError::ChallengeNotSet)));
}

#[test]
fn classification_follows_the_signature_verdict() {
    let c = [9u8; 32];
    assert!(matches!(classify_response(&[0x30, 1], Ok(c), true), Ok(AuthResult::Success { challenge }) if challenge == c));
    assert!(matches!(classify_response(&[0x30, 1], Ok(c), false), Err(ResponseError::SignatureRejected)));
    assert!(matches!(classify_response(&[0x30, 1], Err(ChallengeError::NotSet), true), Err(ResponseError::ChallengeNotSet)));
    let mut deny = vec![0u8];
    deny.extend_from_slice(&c);
    assert!(matches!(classify_response(&deny, Err(ChallengeError::NotSet), false), Ok(AuthResult::Denied { challenge }) if challenge == c));
}
