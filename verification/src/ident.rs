//! The identifier of an element: a random 128-bit number, written in
//! braces as the element format wants it. Both come from `uuid`.

use vstd::prelude::*;
use crate::digits::hex_digits;

verus! {

/// Whether a number carries the marks of a random identifier: version 4
/// in bits 76 to 79, and the variant `10` in bits 62 and 63.
pub open spec fn is_random_id(id: u128) -> bool {
    &&& (id as nat / 0x1000_0000_0000_0000_0000) % 16 == 4
    &&& (id as nat / 0x4000_0000_0000_0000) % 4 == 2
}

/// An identifier in braces: its 32 hexadecimal digits in small letters, in
/// groups of 8, 4, 4, 4 and 12 digits with hyphens between them.
pub open spec fn braced_text(id: u128) -> Seq<char> {
    let digits = hex_digits(id as nat, 32, false);
    seq!['{'] + digits.subrange(0, 8) + seq!['-'] + digits.subrange(8, 12) + seq!['-']
        + digits.subrange(12, 16) + seq!['-'] + digits.subrange(16, 20) + seq!['-']
        + digits.subrange(20, 32) + seq!['}']
}

/// `Uuid::new_v4`, as a number: a random identifier. Two calls may differ;
/// every outcome carries version 4 and the variant `10`.
#[verifier::external_body]
pub(crate) fn random_id() -> (id: u128)
    ensures
        is_random_id(id),
{
    uuid::Uuid::new_v4().as_u128()
}

/// `Uuid::braced`, formatted: the identifier with hyphens and small
/// letters, in braces.
#[verifier::external_body]
pub(crate) fn braced(id: u128) -> (text: String)
    ensures
        text@ == braced_text(id),
{
    uuid::Uuid::from_u128(id).braced().to_string()
}

} // verus!
