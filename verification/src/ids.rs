//! Identifiers: UUIDs held as 128-bit integers, drawn and shown through the
//! `uuid` crate.

use vstd::prelude::*;

mod fresh;

pub use fresh::FreshId;

verus! {

/// `id` carries the version (4, random) and variant (RFC 4122) bits of a
/// randomly generated UUID.
pub open spec fn is_random_uuid(id: u128) -> bool {
    id & 0xf000_c000_0000_0000_0000u128 == 0x4000_8000_0000_0000_0000u128
}

/// The lowercase hexadecimal digit for `n` in `0..16`.
pub open spec fn hex_digit(n: int) -> char {
    if n < 10 {
        (48 + n) as char
    } else {
        (87 + n) as char
    }
}

/// `16^e`.
pub open spec fn pow16(e: nat) -> nat
    decreases e,
{
    if e == 0 {
        1
    } else {
        16 * pow16((e - 1) as nat)
    }
}

/// The `k`-th hexadecimal digit of `id`, counting from the most significant.
pub open spec fn uuid_nibble(id: u128, k: int) -> int {
    ((id as nat) / pow16((31 - k) as nat)) as int % 16
}

/// How many hexadecimal digits precede position `p` of the hyphenated form.
pub open spec fn digits_before(p: int) -> int {
    if p < 8 {
        p
    } else if p < 13 {
        p - 1
    } else if p < 18 {
        p - 2
    } else if p < 23 {
        p - 3
    } else {
        p - 4
    }
}

/// The hyphenated lowercase form of a UUID, `xxxxxxxx-xxxx-xxxx-xxxx-xxxxxxxxxxxx`,
/// most significant digit first.
pub open spec fn uuid_text(id: u128) -> Seq<char> {
    Seq::new(
        36,
        |p: int|
            if p == 8 || p == 13 || p == 18 || p == 23 {
                '-'
            } else {
                hex_digit(uuid_nibble(id, digits_before(p)))
            },
    )
}

impl FreshId {
    /// Draws a new random version-4 UUID.
    pub fn draw() -> (fresh: FreshId)
        ensures
            is_random_uuid(fresh.value()),
    {
        fresh::new_random_id()
    }
}

/// Shows a UUID as `uuid::Uuid`'s `Display` does: hyphenated, lowercase.
#[verifier::external_body]
pub(crate) fn uuid_to_string(id: u128) -> (text: String)
    ensures
        text@ == uuid_text(id),
{
    uuid::Uuid::from_u128(id).to_string()
}

} // verus!
