//! The challenge that the watch signs. A challenge is a random sequence of 32
//! bytes. Reading it never consumes it; only a response that matches it takes
//! it away, so that a stale response cannot be replayed.

use vstd::prelude::*;

use crate::bytes::bytes_equal;
use crate::challenge_draw::{draw_challenge, ChallengeDraw};

verus! {

/// Length in bytes of a challenge.
pub const CHALLENGE_LEN: usize = 32;

/// Why a challenge operation could not be carried out.
#[derive(Debug, Clone, Copy, PartialEq, Eq, Structural)]
pub enum ChallengeError {
    /// No challenge is outstanding.
    NotSet,
}

/// The outstanding authentication challenge, if any.
pub struct CurrentChallenge {
    challenge: Option<[u8; 32]>,
}

impl View for CurrentChallenge {
    type V = Option<Seq<u8>>;

    closed spec fn view(&self) -> Option<Seq<u8>> {
        match self.challenge {
            Some(ch) => Some(ch@),
            None => None,
        }
    }
}

/// What `take_if_matches` answers when the state is `state` and the offered
/// bytes are `expected`.
pub open spec fn take_outcome(state: Option<Seq<u8>>, expected: Seq<u8>) -> Result<bool, ChallengeError> {
    match state {
        None => Err(ChallengeError::NotSet),
        Some(ch) => Ok(ch == expected),
    }
}

/// The state after `take_if_matches`: a matching challenge is consumed, any
/// other state stays as it was.
pub open spec fn state_after_take(state: Option<Seq<u8>>, expected: Seq<u8>) -> Option<Seq<u8>> {
    match state {
        Some(ch) => if ch == expected { None } else { state },
        None => None,
    }
}

impl Default for CurrentChallenge {
    /// A state with no outstanding challenge.
    fn default() -> (c: Self)
        ensures
            c@ == None::<Seq<u8>>,
    {
        CurrentChallenge { challenge: None }
    }
}

impl CurrentChallenge {
    /// Every outstanding challenge is exactly 32 bytes long.
    pub proof fn law_challenge_is_32_bytes(&self)
        ensures
            self@ matches Some(ch) ==> ch.len() == CHALLENGE_LEN,
    {
    }

    /// Replaces the outstanding challenge with fresh random bytes and returns
    /// them: the new challenge is a draw of the random source made in this
    /// call, whatever challenge stood before.
    pub fn refresh(&mut self) -> (ch: [u8; 32])
        ensures
            final(self)@ == Some(ch@),
            exists|draw: ChallengeDraw| ch@ == #[trigger] draw.bytes(),
    {
        let draw = draw_challenge();
        let ch = draw.value();
        self.challenge = Some(ch);
        ch
    }

    /// Consumes the outstanding challenge when it equals `expected`.
    /// Answers `Ok(true)` and clears the challenge on a match, `Ok(false)` and
    /// keeps it otherwise, and `Err(NotSet)` when there is none.
    pub fn take_if_matches(&mut self, expected: &[u8]) -> (matched: Result<bool, ChallengeError>)
        ensures
            matched == take_outcome(old(self)@, expected@),
            final(self)@ == state_after_take(old(self)@, expected@),
    {
        match self.challenge {
            Some(ch) => {
                if bytes_equal(&ch, expected) {
                    self.challenge = None;
                    Ok(true)
                } else {
                    Ok(false)
                }
            },
            None => Err(ChallengeError::NotSet),
        }
    }

    /// A copy of the outstanding challenge; the state is left as it was.
    pub fn peek(&self) -> (ch: Result<[u8; 32], ChallengeError>)
        ensures
            match self@ {
                None => ch == Err::<[u8; 32], ChallengeError>(ChallengeError::NotSet),
                Some(c) => ch matches Ok(a) && a@ == c,
            },
    {
        match self.challenge {
            Some(ch) => Ok(ch),
            None => Err(ChallengeError::NotSet),
        }
    }
}

/// A refresh supersedes the challenge that stood before: once the drawn
/// bytes stand, a response carrying the previous challenge is accepted only
/// if the draw repeated it, and otherwise is refused and leaves the new
/// challenge in place.
pub proof fn law_refresh_supersedes_previous(previous: Seq<u8>, draw: ChallengeDraw)
    ensures
        take_outcome(Some(draw.bytes()), previous) == Ok::<bool, ChallengeError>(draw.bytes() == previous),
        draw.bytes() != previous ==> state_after_take(Some(draw.bytes()), previous) == Some(draw.bytes()),
{
}

/// A response that carries the outstanding challenge is accepted once and
/// consumes it: replaying the same response then finds no challenge.
pub proof fn law_challenge_taken_once(ch: Seq<u8>)
    ensures
        take_outcome(Some(ch), ch) == Ok::<bool, ChallengeError>(true),
        state_after_take(Some(ch), ch) == None::<Seq<u8>>,
        take_outcome(state_after_take(Some(ch), ch), ch) == Err::<bool, ChallengeError>(ChallengeError::NotSet),
{
}

/// A response that carries other bytes than the outstanding challenge is
/// refused and leaves the challenge in place.
pub proof fn law_mismatch_keeps_challenge(ch: Seq<u8>, other: Seq<u8>)
    requires
        ch != other,
    ensures
        take_outcome(Some(ch), other) == Ok::<bool, ChallengeError>(false),
        state_after_take(Some(ch), other) == Some(ch),
{
}

} // verus!
