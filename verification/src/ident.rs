//! The 128-bit identifiers of the library and their text form.
use vstd::prelude::*;
use vstd::arithmetic::power::pow;

verus! {

/// The lowercase hexadecimal digit of `d` (`0 <= d < 16`).
pub open spec fn hex_digit(d: int) -> char {
    if d < 10 {
        (d + 48) as char
    } else {
        (d + 87) as char
    }
}

/// The `k`-th hexadecimal digit of `v`, counting from the most significant one.
pub open spec fn hex_digit_at(v: u128, k: int) -> char {
    hex_digit(((v as int) / pow(16, (31 - k) as nat)) % 16)
}

/// The hyphenated lowercase form of a UUID: its 32 hexadecimal digits, most
/// significant first, grouped 8-4-4-4-12 and separated by `-`.
pub open spec fn uuid_text(v: u128) -> Seq<char> {
    Seq::new(
        36,
        |i: int|
            if i == 8 || i == 13 || i == 18 || i == 23 {
                '-'
            } else if i < 8 {
                hex_digit_at(v, i)
            } else if i < 13 {
                hex_digit_at(v, i - 1)
            } else if i < 18 {
                hex_digit_at(v, i - 2)
            } else if i < 23 {
                hex_digit_at(v, i - 3)
            } else {
                hex_digit_at(v, i - 4)
            },
    )
}

/// Whether `v` carries the version-7 number and the RFC 4122 variant bits.
pub open spec fn is_v7_uuid(v: u128) -> bool {
    &&& (v >> 76u128) & 0xfu128 == 7u128
    &&& (v >> 62u128) & 0x3u128 == 2u128
}

/// Renders an identifier; wraps `uuid::Uuid::from_u128` and the `Display` of
/// `uuid::Uuid`, which writes the hyphenated lowercase form.
#[verifier::external_body]
pub(crate) fn uuid_string(v: u128) -> (res: String)
    ensures
        res@ == uuid_text(v),
{
    uuid::Uuid::from_u128(v).to_string()
}

/// A fresh time-ordered identifier; wraps `uuid::Uuid::now_v7` (read back with
/// `as_u128`). Its value rests on the clock and on random bits: only its
/// version and variant are stated.
#[verifier::external_body]
pub(crate) fn fresh_v7_uuid() -> (res: u128)
    ensures
        is_v7_uuid(res),
{
    uuid::Uuid::now_v7().as_u128()
}

} // verus!
