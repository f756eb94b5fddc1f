//! Human-readable addresses: a network-prefixed checksummed encoding of a
//! 32-byte public key.

use vstd::prelude::*;

use crate::errors::Error;

verus! {

/// The checksummed address text of a payload under a prefix, or `None` where
/// the prefix or length is unencodable.
pub uninterp spec fn spec_bech32_encode(hrp: Seq<char>, data: Seq<u8>) -> Option<Seq<char>>;

/// The prefix and payload an address text decodes to, or `None` where the
/// text is malformed or its checksum wrong.
pub uninterp spec fn spec_bech32_decode(s: Seq<char>) -> Option<(Seq<char>, Seq<u8>)>;

/// Relies on bech32::encode with the classic checksum and on
/// bech32::Hrp::parse: the address text is a function of the prefix and the
/// payload alone; `None` exactly where the crate rejects the prefix or the
/// encoded length.
#[verifier::external_body]
pub(crate) fn bech32_encode(hrp: &str, data: &[u8]) -> (r: Option<String>)
    ensures
        r is Some <==> spec_bech32_encode(hrp@, data@) is Some,
        r matches Some(s) ==> spec_bech32_encode(hrp@, data@) == Some(s@),
{
    let h = match bech32::Hrp::parse(hrp) {
        Ok(h) => h,
        Err(_) => return None,
    };
    bech32::encode::<bech32::Bech32>(h, data).ok()
}

/// Relies on bech32::decode and bech32::Hrp::to_lowercase: the prefix and
/// payload are a function of the address text alone; `None` exactly where
/// the crate rejects the text.
#[verifier::external_body]
pub(crate) fn bech32_decode(s: &str) -> (r: Option<(String, Vec<u8>)>)
    ensures
        r is Some <==> spec_bech32_decode(s@) is Some,
        r matches Some(p) ==> spec_bech32_decode(s@) == Some((p.0@, p.1@)),
{
    match bech32::decode(s) {
        Ok((hrp, data)) => Some((hrp.to_lowercase(), data)),
        Err(_) => None,
    }
}

/// Decodes an address into its 32-byte public key and its prefix. Fails with
/// [`Error::InvalidAddress`] exactly where the text does not decode or its
/// payload is not 32 bytes.
pub fn decode_address(address: &str) -> (r: Result<(Vec<u8>, String), Error>)
    ensures
        r is Ok <==> (spec_bech32_decode(address@) matches Some(p) && p.1.len() == 32),
        r matches Ok(q) ==> spec_bech32_decode(address@) == Some((q.1@, q.0@)),
        r matches Err(e) ==> e == Error::InvalidAddress,
{
    match bech32_decode(address) {
        Some((hrp, data)) => {
            if data.len() == 32 {
                Ok((data, hrp))
            } else {
                Err(Error::InvalidAddress)
            }
        },
        None => Err(Error::InvalidAddress),
    }
}

} // verus!
