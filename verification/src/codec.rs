//! Fixed-width little-endian integer codecs.
//!
//! Account nonces (`u64`) and balances (`u128`) are stored on chain as
//! exact-width little-endian byte strings; a cell of any other length is
//! malformed and rejected with [`Error::ParseError`].

use vstd::bytes::{
    lemma_auto_spec_u128_to_from_le_bytes, lemma_auto_spec_u64_to_from_le_bytes,
    spec_u128_from_le_bytes, spec_u128_to_le_bytes, spec_u64_from_le_bytes, spec_u64_to_le_bytes,
    u128_from_le_bytes, u128_to_le_bytes, u64_from_le_bytes, u64_to_le_bytes,
};
use vstd::prelude::*;
use vstd::string::StringExecFns;

use crate::errors::Error;

verus! {

/// Reads a `u64` from an exactly 8-byte little-endian slice.
pub fn u64_from_slice(bytes: &[u8]) -> (r: Result<u64, Error>)
    ensures
        r is Ok <==> bytes@.len() == 8,
        r matches Ok(v) ==> v == spec_u64_from_le_bytes(bytes@),
        r matches Err(e) ==> e == Error::ParseError,
{
    if bytes.len() != 8 {
        return Err(Error::ParseError);
    }
    Ok(u64_from_le_bytes(bytes))
}

/// Reads a `u128` from an exactly 16-byte little-endian slice.
pub fn u128_from_slice(bytes: &[u8]) -> (r: Result<u128, Error>)
    ensures
        r is Ok <==> bytes@.len() == 16,
        r matches Ok(v) ==> v == spec_u128_from_le_bytes(bytes@),
        r matches Err(e) ==> e == Error::ParseError,
{
    if bytes.len() != 16 {
        return Err(Error::ParseError);
    }
    Ok(u128_from_le_bytes(bytes))
}

/// Writes a `u64` as its 8-byte little-endian encoding.
pub fn u64_to_le_vec(x: u64) -> (r: Vec<u8>)
    ensures
        r@ == spec_u64_to_le_bytes(x),
        r@.len() == 8,
{
    u64_to_le_bytes(x)
}

/// Writes a `u128` as its 16-byte little-endian encoding.
pub fn u128_to_le_vec(x: u128) -> (r: Vec<u8>)
    ensures
        r@ == spec_u128_to_le_bytes(x),
        r@.len() == 16,
{
    u128_to_le_bytes(x)
}

/// Law: encoding any `u64` little-endian and decoding it again yields the
/// original value, and the decode succeeds (the encoding is 8 bytes long).
pub proof fn lemma_u64_le_round_trip(x: u64)
    ensures
        spec_u64_to_le_bytes(x).len() == 8,
        spec_u64_from_le_bytes(spec_u64_to_le_bytes(x)) == x,
{
    lemma_auto_spec_u64_to_from_le_bytes();
}

/// Law: encoding any `u128` little-endian and decoding it again yields the
/// original value, and the decode succeeds (the encoding is 16 bytes long).
pub proof fn lemma_u128_le_round_trip(x: u128)
    ensures
        spec_u128_to_le_bytes(x).len() == 16,
        spec_u128_from_le_bytes(spec_u128_to_le_bytes(x)) == x,
{
    lemma_auto_spec_u128_to_from_le_bytes();
    assert(spec_u128_to_le_bytes(x).len() == 16);
}

/// The character of one decimal digit value (zero on anything else).
pub open spec fn spec_dec_digit(d: u8) -> char {
    if d == 0 {
        '0'
    } else if d == 1 {
        '1'
    } else if d == 2 {
        '2'
    } else if d == 3 {
        '3'
    } else if d == 4 {
        '4'
    } else if d == 5 {
        '5'
    } else if d == 6 {
        '6'
    } else if d == 7 {
        '7'
    } else if d == 8 {
        '8'
    } else if d == 9 {
        '9'
    } else {
        '0'
    }
}

/// The decimal text of a number, most significant digit first, with no
/// leading zeroes (the number zero is the single digit `0`).
pub open spec fn spec_dec_str(n: nat) -> Seq<char>
    decreases n,
{
    if n < 10 {
        seq![spec_dec_digit(n as u8)]
    } else {
        spec_dec_str(n / 10).push(spec_dec_digit((n % 10) as u8))
    }
}

/// The decimal characters of collected digit values, least significant
/// first, read back to front.
pub open spec fn rev_dec_chars(ds: Seq<u8>) -> Seq<char>
    decreases ds.len(),
{
    if ds.len() == 0 {
        Seq::empty()
    } else {
        seq![spec_dec_digit(ds.last())] + rev_dec_chars(ds.drop_last())
    }
}

/// Pointwise reading of `rev_dec_chars`.
proof fn lemma_rev_dec_chars(ds: Seq<u8>)
    ensures
        rev_dec_chars(ds).len() == ds.len(),
        forall|j: int|
            0 <= j < ds.len() ==> rev_dec_chars(ds)[j] == spec_dec_digit(ds[ds.len() - 1 - j]),
    decreases ds.len(),
{
    if ds.len() > 0 {
        lemma_rev_dec_chars(ds.drop_last());
    }
}

/// The one-character text of a decimal digit value.
fn dec_digit_str(d: u8) -> (r: &'static str)
    requires
        d < 10,
    ensures
        r@ == seq![spec_dec_digit(d)],
{
    proof {
        reveal_strlit("0");
        reveal_strlit("1");
        reveal_strlit("2");
        reveal_strlit("3");
        reveal_strlit("4");
        reveal_strlit("5");
        reveal_strlit("6");
        reveal_strlit("7");
        reveal_strlit("8");
        reveal_strlit("9");
    }
    if d == 0 {
        "0"
    } else if d == 1 {
        "1"
    } else if d == 2 {
        "2"
    } else if d == 3 {
        "3"
    } else if d == 4 {
        "4"
    } else if d == 5 {
        "5"
    } else if d == 6 {
        "6"
    } else if d == 7 {
        "7"
    } else if d == 8 {
        "8"
    } else {
        "9"
    }
}

/// Renders a 128-bit number as decimal text. Serializers downstream cannot
/// carry 128-bit integers as numbers, so balances travel as text.
pub fn u128_to_dec(n: u128) -> (r: String)
    ensures
        r@ == spec_dec_str(n as nat),
{
    let mut ds: Vec<u8> = Vec::new();
    let mut m = n;
    proof {
        assert(spec_dec_str(n as nat) =~= spec_dec_str(n as nat) + rev_dec_chars(ds@));
    }
    while m >= 10
        invariant
            0 <= m <= n,
            forall|j: int| 0 <= j < ds@.len() ==> ds@[j] < 10,
            spec_dec_str(n as nat) == spec_dec_str(m as nat) + rev_dec_chars(ds@),
        decreases m,
    {
        let d = (m % 10) as u8;
        let ghost ds0 = ds@;
        ds.push(d);
        m = m / 10;
        proof {
            assert(ds@.last() == d && ds@.drop_last() =~= ds0);
            assert(rev_dec_chars(ds@) =~= seq![spec_dec_digit(d)] + rev_dec_chars(ds0));
            assert(spec_dec_str((m * 10 + d) as nat) == spec_dec_str(m as nat).push(
                spec_dec_digit(d),
            ));
            assert(spec_dec_str(m as nat).push(spec_dec_digit(d)) + rev_dec_chars(ds0)
                =~= spec_dec_str(m as nat) + rev_dec_chars(ds@));
        }
    }
    let ghost ds1 = ds@;
    ds.push(m as u8);
    proof {
        assert(ds@.last() == m as u8 && ds@.drop_last() =~= ds1);
        assert(rev_dec_chars(ds@) =~= seq![spec_dec_digit(m as u8)] + rev_dec_chars(ds1));
        assert(spec_dec_str(m as nat) =~= seq![spec_dec_digit(m as u8)]);
        assert(spec_dec_str(n as nat) =~= rev_dec_chars(ds@));
        lemma_rev_dec_chars(ds@);
    }
    let k = ds.len();
    let mut s = String::new();
    let mut i: usize = 0;
    while i < k
        invariant
            k == ds@.len(),
            0 <= i <= k,
            forall|j: int| 0 <= j < ds@.len() ==> ds@[j] < 10,
            rev_dec_chars(ds@).len() == ds@.len(),
            forall|j: int|
                0 <= j < ds@.len() ==> rev_dec_chars(ds@)[j] == spec_dec_digit(
                    ds@[ds@.len() - 1 - j],
                ),
            s@.len() == i,
            forall|j: int| 0 <= j < i ==> s@[j] == rev_dec_chars(ds@)[j],
        decreases k - i,
    {
        let d = ds[k - 1 - i];
        s.append(dec_digit_str(d));
        i = i + 1;
    }
    proof {
        assert(s@ =~= rev_dec_chars(ds@));
    }
    s
}

} // verus!
