//! Device identity: the stable hardware address string, resolved once at
//! boot and passed to every outbound network call.

use vstd::prelude::*;

verus! {

/// Uppercase hexadecimal digit of a value below 16.
pub open spec fn hex_digit(v: int) -> char {
    if v == 0 { '0' }
    else if v == 1 { '1' }
    else if v == 2 { '2' }
    else if v == 3 { '3' }
    else if v == 4 { '4' }
    else if v == 5 { '5' }
    else if v == 6 { '6' }
    else if v == 7 { '7' }
    else if v == 8 { '8' }
    else if v == 9 { '9' }
    else if v == 10 { 'A' }
    else if v == 11 { 'B' }
    else if v == 12 { 'C' }
    else if v == 13 { 'D' }
    else if v == 14 { 'E' }
    else { 'F' }
}

/// Two uppercase hexadecimal digits of one byte.
pub open spec fn byte_hex(b: u8) -> Seq<char> {
    seq![hex_digit(b as int / 16), hex_digit(b as int % 16)]
}

/// The canonical text of a six-byte hardware address: two uppercase
/// hexadecimal digits per byte, colon-separated.
pub open spec fn mac_text(b0: u8, b1: u8, b2: u8, b3: u8, b4: u8, b5: u8) -> Seq<char> {
    byte_hex(b0) + seq![':'] + byte_hex(b1) + seq![':'] + byte_hex(b2) + seq![':'] + byte_hex(b3)
        + seq![':'] + byte_hex(b4) + seq![':'] + byte_hex(b5)
}

/// Relies on `macaddr::MacAddr6`'s `Display` implementation (reached
/// through `ToString`): its default format prints each byte as two
/// uppercase hexadecimal digits, the bytes separated by colons.
#[verifier::external_body]
fn format_mac(b0: u8, b1: u8, b2: u8, b3: u8, b4: u8, b5: u8) -> (r: String)
    ensures
        r@ == mac_text(b0, b1, b2, b3, b4, b5),
{
    macaddr::MacAddr6::new(b0, b1, b2, b3, b4, b5).to_string()
}

/// The device's identity string, from the six bytes of its hardware
/// address as the link driver reports them.
pub fn get_mac_address(b0: u8, b1: u8, b2: u8, b3: u8, b4: u8, b5: u8) -> (r: String)
    ensures
        r@ == mac_text(b0, b1, b2, b3, b4, b5),
        r@.len() == 17,
{
    format_mac(b0, b1, b2, b3, b4, b5)
}

} // verus!
