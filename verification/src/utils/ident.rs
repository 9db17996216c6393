//! Identifiers as text: the hyphenated form of a 128-bit identifier, and the
//! identifiers that a text stands for.

use vstd::prelude::*;

verus! {

/// The hexadecimal digit, in lower case, of a number below 16.
pub open spec fn hex_digit(d: int) -> char {
    if d < 10 {
        ((48 + d) as u8) as char
    } else {
        ((87 + d) as u8) as char
    }
}

/// 16 to the power `n`.
pub open spec fn sixteen_to(n: nat) -> int
    decreases n,
{
    if n == 0 {
        1
    } else {
        16 * sixteen_to((n - 1) as nat)
    }
}

/// The hexadecimal digit of `id` at place `k`, counted from the most
/// significant of its 32 digits.
pub open spec fn nibble(id: u128, k: int) -> int {
    (id as int / sixteen_to((31 - k) as nat)) % 16
}

/// The number of hyphens before place `i` of the hyphenated form.
pub open spec fn hyphens_before(i: int) -> int {
    if i < 8 {
        0
    } else if i < 13 {
        1
    } else if i < 18 {
        2
    } else if i < 23 {
        3
    } else {
        4
    }
}

/// The hyphenated form of an identifier: its 32 hexadecimal digits in lower
/// case, most significant first, in groups of 8, 4, 4, 4 and 12 with a
/// hyphen between two groups.
pub open spec fn uuid_text(id: u128) -> Seq<char> {
    Seq::new(
        36,
        |i: int|
            if i == 8 || i == 13 || i == 18 || i == 23 {
                '-'
            } else {
                hex_digit(nibble(id, i - hyphens_before(i)))
            },
    )
}

/// The identifier that `Uuid::parse_str` reads from a text, if it reads one.
pub uninterp spec fn parsed_uuid(s: Seq<char>) -> Option<u128>;

/// The bits that mark an identifier as a random one: version 4, variant 1.
pub open spec fn is_random_uuid(id: u128) -> bool {
    id & 0x0000_0000_0000_f000_c000_0000_0000_0000u128
        == 0x0000_0000_0000_4000_8000_0000_0000_0000u128
}

/// `Uuid::to_string` on the identifier with these 128 bits: the hyphenated
/// lower-case form, which `Uuid::parse_str` reads back as the same
/// identifier.
#[verifier::external_body]
pub(crate) fn format_uuid(id: u128) -> (text: String)
    ensures
        text@ == uuid_text(id),
        parsed_uuid(text@) == Some(id),
{
    uuid::Uuid::from_u128(id).to_string()
}

/// `Uuid::parse_str`: reads an identifier from its simple, hyphenated,
/// braced or URN form.
#[verifier::external_body]
pub(crate) fn parse_uuid(s: &str) -> (id: Option<u128>)
    ensures
        id == parsed_uuid(s@),
{
    match uuid::Uuid::parse_str(s) {
        Ok(u) => Some(u.as_u128()),
        Err(_) => None,
    }
}

/// `Uuid::new_v4`: 122 random bits from the operating system under the
/// marks of version 4 and variant 1. It does not return where the operating
/// system hands out no random bytes.
#[verifier::external_body]
pub(crate) fn random_uuid() -> (id: u128)
    ensures
        is_random_uuid(id),
{
    uuid::Uuid::new_v4().as_u128()
}

/// The hyphenated form of an identifier.
pub fn ident_text(id: u128) -> (text: String)
    ensures
        text@ == uuid_text(id),
        parsed_uuid(text@) == Some(id),
{
    format_uuid(id)
}

/// The identifier that a text stands for, if it stands for one.
pub fn parse_ident(text: &str) -> (id: Option<u128>)
    ensures
        id == parsed_uuid(text@),
{
    parse_uuid(text)
}

} // verus!
