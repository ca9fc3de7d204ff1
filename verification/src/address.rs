//! The text of a contract address.

use vstd::prelude::*;

verus! {

/// The character that writes the hexadecimal digit `d` in lower case.
pub open spec fn hex_digit_char(d: nat) -> char {
    if d == 0 {
        '0'
    } else if d == 1 {
        '1'
    } else if d == 2 {
        '2'
    } else if d == 3 {
        '3'
    } else if d == 4 {
        '4'
    } else if d == 5 {
        '5'
    } else if d == 6 {
        '6'
    } else if d == 7 {
        '7'
    } else if d == 8 {
        '8'
    } else if d == 9 {
        '9'
    } else if d == 10 {
        'a'
    } else if d == 11 {
        'b'
    } else if d == 12 {
        'c'
    } else if d == 13 {
        'd'
    } else if d == 14 {
        'e'
    } else {
        'f'
    }
}

/// Two lower-case hexadecimal digits for each byte, the high one first.
pub open spec fn lower_hex(bytes: Seq<u8>) -> Seq<char> {
    Seq::new(
        2 * bytes.len(),
        |i: int|
            if i % 2 == 0 {
                hex_digit_char((bytes[i / 2] / 16) as nat)
            } else {
                hex_digit_char((bytes[i / 2] % 16) as nat)
            },
    )
}

/// An address as the card shows it: `0x`, then its bytes in lower-case
/// hexadecimal.
pub open spec fn address_text(bytes: Seq<u8>) -> Seq<char> {
    "0x"@ + lower_hex(bytes)
}

/// Formats an address with the `Debug` impl of `alloy_primitives::Address`,
/// which writes the prefix `0x` and then the twenty bytes as lower-case
/// hexadecimal digits, without a checksum. The contract is taken from that
/// impl and is not proved here.
#[verifier::external_body]
pub(crate) fn address_string(bytes: &[u8; 20]) -> (r: String)
    ensures
        r@ == address_text(bytes@),
{
    format!("{:?}", alloy_primitives::Address::from(*bytes))
}

} // verus!
