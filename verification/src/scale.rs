//! Decoding of SCALE-encoded values, by the parity-scale-codec crate.

use vstd::prelude::*;

verus! {

/// The string that the SCALE decoding of a `String` reads from the front of
/// `data` (a compact length, then that many bytes of UTF-8), or `None` when
/// `data` does not start with one.
pub uninterp spec fn scale_string(data: Seq<u8>) -> Option<Seq<char>>;

/// Decodes a fixed-size byte array from the front of `data` with
/// `<[u8; N] as parity_scale_codec::Decode>::decode`. The codec reads the
/// first `N` bytes and fails only when fewer are present; the bytes after
/// them are left unread.
#[verifier::external_body]
pub(crate) fn decode_fixed<const N: usize>(data: &[u8]) -> (r: Option<[u8; N]>)
    ensures
        r is Some <==> data@.len() >= N,
        r matches Some(a) ==> a@ == data@.subrange(0, N as int),
{
    <[u8; N] as parity_scale_codec::Decode>::decode(&mut &data[..]).ok()
}

/// Decodes a `String` from the front of `data` with
/// `<String as parity_scale_codec::Decode>::decode`. The contract names the
/// outcome ([`scale_string`]) and does not spell out the compact length
/// prefix or the UTF-8 check.
#[verifier::external_body]
pub(crate) fn decode_string(data: &[u8]) -> (r: Option<String>)
    ensures
        r is Some <==> scale_string(data@) is Some,
        r matches Some(s) ==> s@ == scale_string(data@)->Some_0,
{
    <String as parity_scale_codec::Decode>::decode(&mut &data[..]).ok()
}

/// The SCALE encoding of a string (a compact length, then the UTF-8 bytes).
pub uninterp spec fn scale_encoded_string(s: Seq<char>) -> Seq<u8>;

/// Encodes a string with `<str as parity_scale_codec::Encode>::encode`: a
/// compact length, then the UTF-8 bytes, which the `String` decoding reads
/// back. The codec refuses (panics on) byte lengths beyond `u32::MAX`.
#[verifier::external_body]
pub(crate) fn encode_string(s: &str) -> (r: Vec<u8>)
    requires
        vstd::utf8::encode_utf8(s@).len() <= u32::MAX,
    ensures
        r@ == scale_encoded_string(s@),
        scale_string(r@) == Some(s@),
{
    <str as parity_scale_codec::Encode>::encode(s)
}

} // verus!
