//! Text out of bytes: strict UTF-8 for names, and the banner's encodings,
//! which depend on the region.

use vstd::prelude::*;
use vstd::utf8::{decode_utf8, valid_utf8};
use std::string::FromUtf8Error;
use crate::region::Region;

verus! {

/// The error of `String::from_utf8`, `std::string::FromUtf8Error`. Nothing
/// is read from it.
#[verifier::external_type_specification]
#[verifier::external_body]
pub struct ExFromUtf8Error(FromUtf8Error);

/// `String::from_utf8` succeeds on exactly the byte strings that are UTF-8,
/// and the string it gives then holds the characters that the bytes encode.
pub assume_specification[ String::from_utf8 ](vec: Vec<u8>) -> (r: Result<String, FromUtf8Error>)
    ensures
        r is Ok <==> valid_utf8(vec@),
        r matches Ok(s) ==> s@ == decode_utf8(vec@),
;

/// The text of `bytes` where they are UTF-8, and nothing where they are not.
pub fn string_from_utf8(bytes: Vec<u8>) -> (r: Option<String>)
    ensures
        r is Some <==> valid_utf8(bytes@),
        r matches Some(s) ==> s@ == decode_utf8(bytes@),
{
    match String::from_utf8(bytes) {
        Ok(s) => Some(s),
        Err(_) => None,
    }
}

/// The text that `Encoding::decode` of `encoding_rs` makes of `bytes` when
/// called on `UTF_8`.
pub uninterp spec fn utf8_text(bytes: Seq<u8>) -> Seq<char>;

/// The text that `Encoding::decode` of `encoding_rs` makes of `bytes` when
/// called on `SHIFT_JIS`.
pub uninterp spec fn shift_jis_text(bytes: Seq<u8>) -> Seq<char>;

/// Calls `encoding_rs::UTF_8.decode` and keeps the text. The decoder skips a
/// byte order mark, follows it to another encoding, and puts U+FFFD where
/// the bytes are malformed; none of that is stated here. The contract only
/// names the text: it depends on the bytes alone. The bound keeps the
/// decoder's buffer size, at most three times the length and twelve, within
/// `usize`: with a size that does not fit, the call panics.
#[verifier::external_body]
fn decode_utf8_text(bytes: &[u8]) -> (text: String)
    requires
        bytes@.len() <= usize::MAX / 8,
    ensures
        text@ == utf8_text(bytes@),
{
    let (text, _, _) = encoding_rs::UTF_8.decode(bytes);
    text.into_owned()
}

/// Calls `encoding_rs::SHIFT_JIS.decode` and keeps the text. As with UTF-8,
/// the contract only names the text, and the bound keeps the decoder's
/// buffer size within `usize`.
#[verifier::external_body]
fn decode_shift_jis_text(bytes: &[u8]) -> (text: String)
    requires
        bytes@.len() <= usize::MAX / 8,
    ensures
        text@ == shift_jis_text(bytes@),
{
    let (text, _, _) = encoding_rs::SHIFT_JIS.decode(bytes);
    text.into_owned()
}

/// The banner text that `bytes` hold on a disc of `region`: Shift-JIS for
/// JPN, UTF-8 for the others. Nothing is trimmed.
pub open spec fn region_text(region: Region, bytes: Seq<u8>) -> Seq<char> {
    match region {
        Region::JPN => shift_jis_text(bytes),
        Region::USA | Region::EUR | Region::FRA => utf8_text(bytes),
    }
}

/// Decodes banner text in the encoding of `region`.
pub fn byte_slice_to_string(bytes: &[u8], region: Region) -> (text: String)
    requires
        bytes@.len() <= usize::MAX / 8,
    ensures
        text@ == region_text(region, bytes@),
{
    match region {
        Region::USA | Region::EUR | Region::FRA => decode_utf8_text(bytes),
        Region::JPN => decode_shift_jis_text(bytes),
    }
}

} // verus!
