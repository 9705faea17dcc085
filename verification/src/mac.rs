//! MAC addresses as devices report them: twelve hexadecimal digits.

use vstd::prelude::*;
use vstd::string::StringSliceAdditionalSpecFns;
use crate::error::{QueryError, SerializationError};
use crate::json::hex_digit;

verus! {

/// An ASCII hexadecimal digit, either case.
pub open spec fn is_hex_digit(b: u8) -> bool {
    (0x30 <= b <= 0x39) || (0x41 <= b <= 0x46) || (0x61 <= b <= 0x66)
}

/// The value of a hexadecimal digit.
pub open spec fn hex_value(b: u8) -> int {
    if b <= 0x39 {
        b - 0x30
    } else if b <= 0x46 {
        b - 0x41 + 10
    } else {
        b - 0x61 + 10
    }
}

/// A two-byte text that `u8::from_str_radix(_, 16)` accepts: two digits, or
/// a plus sign followed by one digit.
pub open spec fn is_hex_pair(x: u8, y: u8) -> bool {
    is_hex_digit(y) && (is_hex_digit(x) || x == 0x2b)
}

/// The byte a two-byte hexadecimal text denotes.
pub open spec fn hex_pair_value(x: u8, y: u8) -> u8 {
    if x == 0x2b {
        hex_value(y) as u8
    } else {
        (16 * hex_value(x) + hex_value(y)) as u8
    }
}

/// A MAC text the parser can handle: one of the wrong length (which it
/// rejects), or twelve bytes read as six hexadecimal pairs.
pub open spec fn mac_text_parsable(s: Seq<u8>) -> bool {
    s.len() != 12 || forall|i: int| 0 <= i < 6 ==> #[trigger] is_hex_pair(s[2 * i], s[2 * i + 1])
}

/// The six octets a twelve-byte MAC text denotes.
pub open spec fn mac_octets(s: Seq<u8>) -> Seq<u8> {
    Seq::new(6, |i: int| hex_pair_value(s[2 * i], s[2 * i + 1]))
}

/// The MAC text a device reports for six octets: two lower-case hexadecimal
/// digits per octet, high digit first.
pub open spec fn mac_text(octets: Seq<u8>) -> Seq<u8> {
    Seq::new(12, |i: int| if i % 2 == 0 {
        hex_digit(octets[i / 2] as int / 16)
    } else {
        hex_digit(octets[i / 2] as int % 16)
    })
}

/// Digits denote their numeric values: `'0'..='9'` are 0 to 9, `'a'..='f'`
/// and `'A'..='F'` are 10 to 15, and reading a written digit gives it back.
pub proof fn lemma_hex_digit_values(d: int)
    requires
        0 <= d < 16,
    ensures
        is_hex_digit(hex_digit(d)),
        hex_value(hex_digit(d)) == d,
        d < 10 ==> is_hex_digit(('0' as u8 + d) as u8) && hex_value(('0' as u8 + d) as u8) == d,
        d < 6 ==> is_hex_digit(('a' as u8 + d) as u8) && hex_value(('a' as u8 + d) as u8) == 10 + d,
        d < 6 ==> is_hex_digit(('A' as u8 + d) as u8) && hex_value(('A' as u8 + d) as u8) == 10 + d,
{
}

/// Parsing the text a device reports for six octets gives those octets back.
pub proof fn lemma_mac_text_roundtrip(octets: Seq<u8>)
    requires
        octets.len() == 6,
    ensures
        mac_text(octets).len() == 12,
        mac_text_parsable(mac_text(octets)),
        mac_octets(mac_text(octets)) == octets,
{
    let t = mac_text(octets);
    assert forall|i: int| 0 <= i < 6 implies #[trigger] is_hex_pair(t[2 * i], t[2 * i + 1])
        && hex_pair_value(t[2 * i], t[2 * i + 1]) == octets[i] by {
        let hi = octets[i] as int / 16;
        let lo = octets[i] as int % 16;
        assert((2 * i) / 2 == i && (2 * i) % 2 == 0);
        assert((2 * i + 1) / 2 == i && (2 * i + 1) % 2 == 1);
        lemma_hex_digit_values(hi);
        lemma_hex_digit_values(lo);
        assert(t[2 * i] == hex_digit(hi));
        assert(t[2 * i + 1] == hex_digit(lo));
    }
    assert(mac_octets(t) =~= octets);
}

/// The value of one hexadecimal digit.
fn digit_value(b: u8) -> (r: u8)
    requires
        is_hex_digit(b),
    ensures
        r == hex_value(b),
        r < 16,
{
    if b <= 0x39 {
        b - 0x30
    } else if b <= 0x46 {
        b - 0x41 + 10
    } else {
        b - 0x61 + 10
    }
}

/// The byte denoted by the hexadecimal pair at `bytes[2 * i]`.
fn pair_at(bytes: &[u8], i: usize) -> (r: u8)
    requires
        i < 6,
        bytes@.len() == 12,
        is_hex_pair(bytes@[2 * i as int], bytes@[2 * i as int + 1]),
    ensures
        r == hex_pair_value(bytes@[2 * i as int], bytes@[2 * i as int + 1]),
{
    let x = bytes[2 * i];
    let y = bytes[2 * i + 1];
    let low = digit_value(y);
    if x == 0x2b {
        low
    } else {
        let high = digit_value(x);
        high * 16 + low
    }
}

/// Whether `parse_mac_address` can handle the text `s`: it has the wrong
/// length, or its twelve bytes are six hexadecimal pairs.
pub fn is_parsable_mac_text(s: &str) -> (r: bool)
    ensures
        r == mac_text_parsable(s.spec_bytes()),
{
    let bytes = s.as_bytes();
    if bytes.len() != 12 {
        return true;
    }
    let mut i: usize = 0;
    while i < 6
        invariant
            bytes@ == s.spec_bytes(),
            bytes@.len() == 12,
            0 <= i <= 6,
            forall|k: int| 0 <= k < i ==> #[trigger] is_hex_pair(bytes@[2 * k], bytes@[2 * k + 1]),
        decreases 6 - i,
    {
        let x = bytes[2 * i];
        let y = bytes[2 * i + 1];
        let y_digit = (0x30 <= y && y <= 0x39) || (0x41 <= y && y <= 0x46) || (0x61 <= y && y <= 0x66);
        let x_digit = (0x30 <= x && x <= 0x39) || (0x41 <= x && x <= 0x46) || (0x61 <= x && x <= 0x66);
        if !(y_digit && (x_digit || x == 0x2b)) {
            assert(!is_hex_pair(bytes@[2 * i as int], bytes@[2 * i as int + 1]));
            return false;
        }
        i = i + 1;
    }
    true
}

/// Parses the MAC address a device reports (twelve hexadecimal digits, no
/// separators) into its six octets. A text that is not twelve bytes long is a
/// `MacAddressError`.
pub fn parse_mac_address(mac_address_str: &str) -> (r: Result<[u8; 6], QueryError>)
    requires
        mac_text_parsable(mac_address_str.spec_bytes()),
    ensures
        mac_address_str.spec_bytes().len() != 12 ==> r == Err::<[u8; 6], QueryError>(
            QueryError::Serialization(SerializationError::MacAddressError),
        ),
        mac_address_str.spec_bytes().len() == 12 ==> (r matches Ok(octets) && octets@ == mac_octets(
            mac_address_str.spec_bytes(),
        )),
{
    let bytes = mac_address_str.as_bytes();
    if bytes.len() != 12 {
        return Err(QueryError::Serialization(SerializationError::MacAddressError));
    }
    proof {
        assert(is_hex_pair(bytes@[2 * 0int], bytes@[2 * 0int + 1]));
        assert(is_hex_pair(bytes@[2 * 1int], bytes@[2 * 1int + 1]));
        assert(is_hex_pair(bytes@[2 * 2int], bytes@[2 * 2int + 1]));
        assert(is_hex_pair(bytes@[2 * 3int], bytes@[2 * 3int + 1]));
        assert(is_hex_pair(bytes@[2 * 4int], bytes@[2 * 4int + 1]));
        assert(is_hex_pair(bytes@[2 * 5int], bytes@[2 * 5int + 1]));
    }
    let octets: [u8; 6] = [
        pair_at(bytes, 0),
        pair_at(bytes, 1),
        pair_at(bytes, 2),
        pair_at(bytes, 3),
        pair_at(bytes, 4),
        pair_at(bytes, 5),
    ];
    assert(octets@ =~= mac_octets(bytes@));
    Ok(octets)
}

} // verus!
