//! Fresh random challenges. A `ChallengeDraw` is made only by `draw_challenge`,
//! in this module: a function that states its result is "a draw" states that
//! the bytes came from the random source in a call of `draw_challenge`, not
//! from an earlier challenge or from any other bytes.

use vstd::prelude::*;

verus! {

/// Draws 32 bytes from the thread-local generator of `rand`.
#[verifier::external_body]
fn random_challenge_bytes() -> (bytes: [u8; 32]) {
    let mut ch = [0u8; 32];
    rand::fill(&mut ch);
    ch
}

/// 32 bytes drawn from the random source. Only `draw_challenge` makes one.
pub struct ChallengeDraw {
    bytes: [u8; 32],
}

impl ChallengeDraw {
    /// The drawn bytes.
    pub closed spec fn bytes(&self) -> Seq<u8> {
        self.bytes@
    }

    /// The drawn bytes.
    pub fn value(&self) -> (bytes: [u8; 32])
        ensures
            bytes@ == self.bytes(),
    {
        self.bytes
    }
}

/// Draws a fresh challenge from the random source.
pub fn draw_challenge() -> (draw: ChallengeDraw)
    ensures
        draw.bytes().len() == 32,
{
    ChallengeDraw { bytes: random_challenge_bytes() }
}

} // verus!
