//! Classification of the values that the watch writes to the response
//! characteristic. A value that starts with `0x00` followed by the 32-byte
//! challenge is an explicit denial; any other value is a DER-encoded ECDSA
//! P-256 signature over the outstanding challenge.

use vstd::prelude::*;

use p256::ecdsa::signature::Verifier;
use p256::ecdsa::{Signature, VerifyingKey};
use p256::pkcs8::DecodePublicKey;

use crate::auth_processor::{AuthResult, AuthResultView};
use crate::current_challenge::{ChallengeError, CurrentChallenge};

verus! {

/// The first byte of a deny response.
pub const DENY_RESPONSE_MARKER: u8 = 0x00;

/// The length of a deny response: the marker and the challenge.
pub const DENY_RESPONSE_LEN: usize = 33;

/// Why a written response was refused. Each is answered to the watch with a
/// failed write.
#[derive(Debug, Clone, Copy, PartialEq, Eq, Structural)]
pub enum ResponseError {
    /// A deny response whose length is not 33 bytes.
    InvalidDenyLength,
    /// No challenge is outstanding to check a signature against.
    ChallengeNotSet,
    /// The public key or the signature does not parse, or the signature does
    /// not verify over the outstanding challenge.
    SignatureRejected,
}

/// Whether ECDSA P-256 verification accepts `signature_der` (ASN.1 DER) over
/// `message` under the public key `public_key_der` (SubjectPublicKeyInfo DER).
/// False when either encoding does not parse.
pub uninterp spec fn p256_ecdsa_der_verifies(public_key_der: Seq<u8>, message: Seq<u8>, signature_der: Seq<u8>) -> bool;

/// Converts the two DER encodings with p256's `VerifyingKey::from_public_key_der`
/// and `Signature::from_der`, then calls `Verifier::verify` (SHA-256 digest of
/// the message). The contract names the outcome: it is a function of the three
/// byte strings alone; a failed conversion counts as a rejection.
#[verifier::external_body]
fn ecdsa_p256_verify_der(public_key_der: &[u8], message: &[u8], signature_der: &[u8]) -> (accepted: bool)
    ensures
        accepted == p256_ecdsa_der_verifies(public_key_der@, message@, signature_der@),
{
    let key = match VerifyingKey::from_public_key_der(public_key_der) {
        Ok(key) => key,
        Err(_) => return false,
    };
    let signature = match Signature::from_der(signature_der) {
        Ok(signature) => signature,
        Err(_) => return false,
    };
    key.verify(message, &signature).is_ok()
}

/// Whether `value` is a deny response (of any length).
pub open spec fn is_deny_response(value: Seq<u8>) -> bool {
    value.len() > 0 && value[0] == DENY_RESPONSE_MARKER
}

/// What a written `value` means, given the outstanding challenge and whether
/// the signature check over it accepted `value`.
pub open spec fn response_outcome(value: Seq<u8>, current: Option<Seq<u8>>, signature_accepted: bool) -> Result<AuthResultView, ResponseError> {
    if is_deny_response(value) {
        if value.len() != DENY_RESPONSE_LEN {
            Err(ResponseError::InvalidDenyLength)
        } else {
            Ok(AuthResultView::Denied(value.subrange(1, DENY_RESPONSE_LEN as int)))
        }
    } else {
        match current {
            None => Err(ResponseError::ChallengeNotSet),
            Some(ch) => if signature_accepted {
                Ok(AuthResultView::Success(ch))
            } else {
                Err(ResponseError::SignatureRejected)
            },
        }
    }
}

/// A classification result taken by its view.
pub open spec fn response_view(r: Result<AuthResult, ResponseError>) -> Result<AuthResultView, ResponseError> {
    match r {
        Ok(a) => Ok(a@),
        Err(e) => Err(e),
    }
}

/// The challenge that a write of `value` is checked against, if any.
pub open spec fn peeked(current: Result<[u8; 32], ChallengeError>) -> Option<Seq<u8>> {
    match current {
        Ok(ch) => Some(ch@),
        Err(_) => None,
    }
}

/// Classifies a written value, given what reading the outstanding challenge
/// gave and what the signature check answered.
pub fn classify_response(
    value: &[u8],
    current: Result<[u8; 32], ChallengeError>,
    signature_accepted: bool,
) -> (r: Result<AuthResult, ResponseError>)
    ensures
        response_view(r) == response_outcome(value@, peeked(current), signature_accepted),
        r matches Ok(AuthResult::Success { challenge }) ==> current == Ok::<[u8; 32], ChallengeError>(challenge),
{
    if value.len() > 0 && value[0] == DENY_RESPONSE_MARKER {
        if value.len() != DENY_RESPONSE_LEN {
            return Err(ResponseError::InvalidDenyLength);
        }
        let mut challenge = [0u8; 32];
        let mut i: usize = 0;
        while i < 32
            invariant
                value@.len() == DENY_RESPONSE_LEN,
                i <= 32,
                forall|j: int| 0 <= j < i ==> challenge@[j] == value@[j + 1],
            decreases 32 - i,
        {
            challenge[i] = value[i + 1];
            i = i + 1;
        }
        assert(challenge@ =~= value@.subrange(1, DENY_RESPONSE_LEN as int));
        return Ok(AuthResult::Denied { challenge });
    }
    match current {
        Err(_) => Err(ResponseError::ChallengeNotSet),
        Ok(challenge) => {
            if signature_accepted {
                Ok(AuthResult::Success { challenge })
            } else {
                Err(ResponseError::SignatureRejected)
            }
        },
    }
}

/// Handles a write to the response characteristic: classifies `value` against
/// the outstanding challenge, verifying a signature with the configured public
/// key. The challenge is only read here; the processor consumes it.
pub fn handle_response_write(
    value: &[u8],
    current: &CurrentChallenge,
    public_key_der: &[u8],
) -> (r: Result<AuthResult, ResponseError>)
    ensures
        response_view(r) == response_outcome(
            value@,
            current@,
            match current@ {
                Some(ch) => p256_ecdsa_der_verifies(public_key_der@, ch, value@),
                None => false,
            },
        ),
{
    if value.len() > 0 && value[0] == DENY_RESPONSE_MARKER {
        return classify_response(value, Err(ChallengeError::NotSet), false);
    }
    let peek = current.peek();
    match peek {
        Err(e) => classify_response(value, Err(e), false),
        Ok(challenge) => {
            let accepted = ecdsa_p256_verify_der(public_key_der, &challenge, value);
            classify_response(value, Ok(challenge), accepted)
        },
    }
}

/// A well-formed deny response is recognized as a denial of the challenge it
/// carries, whatever the outstanding challenge and the signature check.
pub proof fn law_deny_response_recognized(value: Seq<u8>, current: Option<Seq<u8>>, accepted: bool)
    requires
        value.len() == DENY_RESPONSE_LEN,
        value[0] == DENY_RESPONSE_MARKER,
    ensures
        response_outcome(value, current, accepted) == Ok::<AuthResultView, ResponseError>(
            AuthResultView::Denied(value.subrange(1, DENY_RESPONSE_LEN as int)),
        ),
{
}

/// A signature response is accepted only when the signature check accepts
/// it, and then it grants exactly the outstanding challenge.
pub proof fn law_success_only_with_valid_signature(value: Seq<u8>, current: Option<Seq<u8>>, accepted: bool, granted: Seq<u8>)
    requires
        response_outcome(value, current, accepted) == Ok::<AuthResultView, ResponseError>(AuthResultView::Success(granted)),
    ensures
        !is_deny_response(value),
        accepted,
        current == Some(granted),
{
}

} // verus!
