//! The GATT identifiers of the service and its characteristics, and the text
//! form of UUIDs as the `uuid` crate writes it.

use vstd::prelude::*;

use vstd::arithmetic::power::pow;

verus! {

/// The GATT service that the daemon offers.
pub const SERVICE_UUID: u128 = 0xddc6ea97_db6e_4ecd_a3ff_0143368ef829;

/// The characteristic from which the watch reads or is notified of the challenge.
pub const CHALLENGE_CHAR_UUID: u128 = 0x5794ca86_3a5e_45ca_85f9_42a74cd460a7;

/// The characteristic to which the watch writes its signed or denying response.
pub const RESPONSE_CHAR_UUID: u128 = 0xf68c58c2_a1f2_456f_a118_f1c6ce566a0a;

/// The characteristic by which the daemon notifies the watch of a cancellation.
pub const CANCEL_CHAR_UUID: u128 = 0x2679d328_1fb9_4cd5_9efe_382a723bcad7;

/// The lower-case hexadecimal digit of `n` (0 to 15).
pub open spec fn lower_hex_digit(n: int) -> char {
    if n < 10 {
        (48 + n) as char
    } else {
        (87 + n) as char
    }
}

/// Whether position `p` of the hyphenated form holds a hyphen.
pub open spec fn is_hyphen_position(p: int) -> bool {
    p == 8 || p == 13 || p == 18 || p == 23
}

/// The index, counted from the most significant, of the hexadecimal digit
/// that position `p` of the hyphenated form shows.
pub open spec fn digit_index(p: int) -> int {
    p - (if p > 8 { 1int } else { 0 }) - (if p > 13 { 1int } else { 0 }) - (if p > 18 { 1int } else { 0 })
        - (if p > 23 { 1int } else { 0 })
}

/// The `k`-th hexadecimal digit of `v`, counted from the most significant of 32.
pub open spec fn nibble(v: u128, k: int) -> int {
    (v as int / pow(16, (31 - k) as nat)) % 16
}

/// The hyphenated lower-case text of a UUID whose 128-bit big-endian value is
/// `v`: 36 characters in groups of 8, 4, 4, 4 and 12 digits.
pub open spec fn uuid_text(v: u128) -> Seq<char> {
    Seq::new(36, |p: int| if is_hyphen_position(p) { '-' } else { lower_hex_digit(nibble(v, digit_index(p))) })
}

/// Calls `uuid::Uuid::from_u128` and formats the UUID with `to_string`, which
/// the crate documents and implements as the hyphenated lower-case form.
#[verifier::external_body]
pub(crate) fn uuid_string(value: u128) -> (s: String)
    ensures
        s@ == uuid_text(value),
{
    uuid::Uuid::from_u128(value).to_string()
}

/// Calls `uuid::Uuid::new_v4` and formats the UUID with `to_string`. The
/// value is random; the text is the hyphenated form of some 128-bit value.
#[verifier::external_body]
pub(crate) fn random_uuid_string() -> (s: String)
    ensures
        exists|v: u128| s@ == #[trigger] uuid_text(v),
{
    uuid::Uuid::new_v4().to_string()
}

} // verus!
