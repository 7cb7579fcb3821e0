//! The decisions of a PAM socket worker: what it answers the PAM module, and
//! when a byte from the client cancels the pending authentication.

use vstd::prelude::*;

verus! {

/// The byte answered to the PAM module when the user is authenticated.
pub const REPLY_VERIFIED: u8 = 0;

/// The byte answered to the PAM module in every other case.
pub const REPLY_NOT_VERIFIED: u8 = 1;

/// The reply to the PAM module for the processor's verdict; `None` stands for
/// a processor that dropped the channel without a verdict.
pub fn verdict_reply(verdict: Option<bool>) -> (reply: [u8; 1])
    ensures
        reply@ == seq![if verdict == Some(true) { REPLY_VERIFIED } else { REPLY_NOT_VERIFIED }],
{
    let verified = match verdict {
        Some(v) => v,
        None => false,
    };
    let reply = if verified { [REPLY_VERIFIED] } else { [REPLY_NOT_VERIFIED] };
    assert(reply@ =~= seq![if verdict == Some(true) { REPLY_VERIFIED } else { REPLY_NOT_VERIFIED }]);
    reply
}

/// Whether the byte read from the client is the cancellation message
/// `cancelled_code`; a failed read counts as the byte 0.
pub fn is_cancel_signal(read: Option<u8>, cancelled_code: u32) -> (cancel: bool)
    ensures
        cancel == (match read {
            Some(b) => b as u32 == cancelled_code,
            None => cancelled_code == 0,
        }),
{
    let byte: u8 = match read {
        Some(b) => b,
        None => 0,
    };
    byte as u32 == cancelled_code
}

} // verus!
