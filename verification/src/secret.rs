//! The webhook's secret token: sixteen bytes from the operating system, shown
//! as a hyphenated UUID.
use vstd::prelude::*;
use rand::TryRng;

verus! {

/// The error that the operating system's generator reports.
#[verifier::external_type_specification]
#[verifier::external_body]
pub struct ExSysError(rand::rngs::SysError);

/// A lowercase hexadecimal digit for `n` in `0..16`.
pub open spec fn hex_digit(n: int) -> char {
    if n < 10 {
        (48 + n) as char
    } else {
        (87 + n) as char
    }
}

/// The 32 lowercase hexadecimal digits of 16 bytes, high nibble first.
pub open spec fn hex_digits(bytes: Seq<u8>) -> Seq<char> {
    Seq::new(
        32,
        |i: int| hex_digit(if i % 2 == 0 { bytes[i / 2] as int / 16 } else { bytes[i / 2] as int % 16 }),
    )
}

/// The hyphenated form of a UUID: digit groups of 8, 4, 4, 4 and 12.
pub open spec fn hyphenated(bytes: Seq<u8>) -> Seq<char> {
    let h = hex_digits(bytes);
    h.subrange(0, 8) + seq!['-'] + h.subrange(8, 12) + seq!['-'] + h.subrange(12, 16) + seq!['-']
        + h.subrange(16, 20) + seq!['-'] + h.subrange(20, 32)
}

/// Fills `bytes` from the operating system's generator
/// (`rand::rngs::SysRng` through `rand::TryRng::try_fill_bytes`). Nothing is
/// claimed of the bytes: they are random, and on an error they may be left
/// partly written.
#[verifier::external_body]
pub(crate) fn fill_random(bytes: &mut [u8; 16]) -> (res: Result<(), rand::rngs::SysError>) {
    rand::rngs::SysRng.try_fill_bytes(bytes.as_mut_slice())
}

/// The text of the UUID made of `bytes` (`uuid::Uuid::from_bytes`, then its
/// `Display`, which `uuid` writes as the lowercase hyphenated form).
#[verifier::external_body]
pub(crate) fn hyphenated_text(bytes: &[u8; 16]) -> (res: String)
    ensures
        res@ == hyphenated(bytes@),
{
    uuid::Uuid::from_bytes(*bytes).to_string()
}

} // verus!
