//! Hexadecimal text: the form in which byte strings travel through the
//! gateway's JSON-like results (`"0x..."`), and the decoding used by the
//! enrichment passes.

use vstd::prelude::*;
use vstd::string::StrSliceExecFns;

verus! {

/// Is `c` one of the characters a hexadecimal digit may use?
pub open spec fn is_hex_digit(c: char) -> bool {
    ('0' as u32) <= c as u32 <= ('9' as u32) || ('a' as u32) <= c as u32 <= ('f' as u32) || (
    'A' as u32) <= c as u32 <= ('F' as u32)
}

/// The value of one hexadecimal digit (zero on anything else).
pub open spec fn hex_digit_val(c: char) -> u8 {
    let v = c as u32;
    if ('0' as u32) <= v <= ('9' as u32) {
        (v - ('0' as u32)) as u8
    } else if ('a' as u32) <= v <= ('f' as u32) {
        (v - ('a' as u32) + 10) as u8
    } else if ('A' as u32) <= v <= ('F' as u32) {
        (v - ('A' as u32) + 10) as u8
    } else {
        0
    }
}

/// A string decodes as hexadecimal when its length is even and every
/// character is a digit; upper and lower case may be mixed.
pub open spec fn spec_hex_decodable(s: Seq<char>) -> bool {
    s.len() % 2 == 0 && (forall|i: int| 0 <= i < s.len() ==> is_hex_digit(#[trigger] s[i]))
}

/// The bytes a hexadecimal string stands for, two digits per byte, high
/// nibble first.
pub open spec fn spec_hex_bytes(s: Seq<char>) -> Seq<u8>
    decreases s.len(),
{
    if s.len() < 2 {
        Seq::empty()
    } else {
        seq![(hex_digit_val(s[0]) * 16 + hex_digit_val(s[1])) as u8] + spec_hex_bytes(s.skip(2))
    }
}

/// The lowercase digit character for one nibble value.
pub open spec fn hex_char_of(v: u8) -> char {
    if v == 0 {
        '0'
    } else if v == 1 {
        '1'
    } else if v == 2 {
        '2'
    } else if v == 3 {
        '3'
    } else if v == 4 {
        '4'
    } else if v == 5 {
        '5'
    } else if v == 6 {
        '6'
    } else if v == 7 {
        '7'
    } else if v == 8 {
        '8'
    } else if v == 9 {
        '9'
    } else if v == 10 {
        'a'
    } else if v == 11 {
        'b'
    } else if v == 12 {
        'c'
    } else if v == 13 {
        'd'
    } else if v == 14 {
        'e'
    } else {
        'f'
    }
}

/// The lowercase hexadecimal text of a byte string, two digits per byte.
pub open spec fn spec_hex_str(b: Seq<u8>) -> Seq<char>
    decreases b.len(),
{
    if b.len() == 0 {
        Seq::empty()
    } else {
        seq![hex_char_of(b[0] / 16), hex_char_of(b[0] % 16)] + spec_hex_str(b.skip(1))
    }
}

/// Relies on hex::decode: succeeds exactly on even-length strings of
/// hexadecimal digits (either case) and yields one byte per digit pair,
/// high nibble first.
#[verifier::external_body]
pub(crate) fn hex_decode(s: &str) -> (r: Option<Vec<u8>>)
    ensures
        r is Some <==> spec_hex_decodable(s@),
        r matches Some(v) ==> v@ == spec_hex_bytes(s@),
{
    hex::decode(s).ok()
}

/// Relies on hex::encode: two lowercase digits for each byte, high nibble
/// first.
#[verifier::external_body]
pub(crate) fn hex_encode(data: &[u8]) -> (r: String)
    ensures
        r@ == spec_hex_str(data@),
{
    hex::encode(data)
}

/// What remains of a string once every leading `0x` pair is removed.
pub open spec fn spec_strip_0x(s: Seq<char>) -> Seq<char>
    decreases s.len(),
{
    if s.len() >= 2 && s[0] == '0' && s[1] == 'x' {
        spec_strip_0x(s.skip(2))
    } else {
        s
    }
}

/// Removes every leading `0x` prefix from a string.
pub fn strip_0x(s: &str) -> (r: &str)
    ensures
        r@ == spec_strip_0x(s@),
{
    let mut t: &str = s;
    loop
        invariant
            spec_strip_0x(s@) == spec_strip_0x(t@),
        decreases t@.len(),
    {
        let n = t.unicode_len();
        if n >= 2 && t.get_char(0) == '0' && t.get_char(1) == 'x' {
            t = t.substring_char(2, n);
        } else {
            return t;
        }
    }
}

} // verus!
