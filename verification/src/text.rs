//! Bounded text, as carried in media metadata, and the decoding of UTF-8.

use arrayvec::ArrayString;
use vstd::prelude::*;
use vstd::string::StringSliceAdditionalSpecFns;
use vstd::utf8::{decode_utf8, encode_utf8_decode_utf8, valid_utf8};

verus! {

/// Capacity in bytes of one attribute payload, and so of one bounded string.
pub const ATT_PAYLOAD_MAX_LEN: usize = 512;

/// `arrayvec::ArrayString`: a string in an array of fixed capacity. Its
/// inside is not looked into; what it holds goes by [`text_of`].
#[verifier::external_type_specification]
#[verifier::external_body]
pub struct ExArrayString<const CAP: usize>(ArrayString<CAP>);

/// The characters that a bounded string holds.
pub uninterp spec fn text_of(s: ArrayString<512>) -> Seq<char>;

/// `ArrayString::new`: a bounded string that holds no characters.
#[verifier::external_body]
pub(crate) fn empty_text() -> (s: ArrayString<512>)
    ensures
        text_of(s) == Seq::<char>::empty(),
{
    ArrayString::new()
}

/// `ArrayString::from`: a bounded string with the characters of `s`, where
/// the UTF-8 encoding of `s` is within the capacity, and nothing where it is
/// longer.
#[verifier::external_body]
pub(crate) fn text_from_str(s: &str) -> (r: Option<ArrayString<512>>)
    ensures
        r is Some <==> s.spec_bytes().len() <= 512,
        r matches Some(t) ==> text_of(t) == s@,
{
    ArrayString::from(s).ok()
}

/// `ArrayString::as_str`: the whole content as a string slice. It lies in
/// the array of the string, so its bytes are no more than the capacity.
#[verifier::external_body]
pub(crate) fn text_as_str(s: &ArrayString<512>) -> (r: &str)
    ensures
        r@ == text_of(*s),
        r.spec_bytes().len() <= 512,
{
    s.as_str()
}

/// `core::str::from_utf8`: the string slice over `bytes` where they are
/// valid UTF-8. Where they are not, the error gives the length of the
/// longest prefix that is valid (`Utf8Error::valid_up_to`).
#[verifier::external_body]
pub(crate) fn str_from_utf8(bytes: &[u8]) -> (r: Result<&str, usize>)
    ensures
        r is Ok <==> valid_utf8(bytes@),
        r matches Ok(s) ==> s.spec_bytes() == bytes@,
        r matches Err(valid_up_to) ==> {
            &&& valid_up_to < bytes@.len()
            &&& valid_utf8(bytes@.take(valid_up_to as int))
            &&& forall|k: int|
                valid_up_to < k <= bytes@.len() ==> !valid_utf8(#[trigger] bytes@.take(k))
        },
{
    match core::str::from_utf8(bytes) {
        Ok(s) => Ok(s),
        Err(e) => Err(e.valid_up_to()),
    }
}

/// The characters of a byte string, where it is valid UTF-8 and within the
/// capacity of a bounded string.
pub open spec fn decoded(bytes: Seq<u8>) -> Option<Seq<char>> {
    if valid_utf8(bytes) && bytes.len() <= ATT_PAYLOAD_MAX_LEN {
        Some(decode_utf8(bytes))
    } else {
        None
    }
}

/// Decodes `bytes` into a bounded string. Bytes that are not valid UTF-8,
/// or more bytes than a bounded string holds, give nothing.
pub fn decode_text(bytes: &[u8]) -> (r: Option<ArrayString<512>>)
    ensures
        r is Some <==> decoded(bytes@) is Some,
        r matches Some(t) ==> Some(text_of(t)) == decoded(bytes@),
{
    match str_from_utf8(bytes) {
        Ok(s) => {
            proof {
                encode_utf8_decode_utf8(s@);
            }
            text_from_str(s)
        },
        Err(_) => None,
    }
}

} // verus!
