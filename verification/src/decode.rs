//! Decoding captured bytes as UTF-8 text.

use vstd::prelude::*;
use vstd::utf8::*;

verus! {

/// `String::from_utf8` succeeds exactly on valid UTF-8, and the text it gives
/// is the one that the bytes encode.
pub assume_specification[ String::from_utf8 ](bytes: Vec<u8>) -> (decoded: Result<
    String,
    std::string::FromUtf8Error,
>)
    ensures
        decoded is Ok <==> valid_utf8(bytes@),
        decoded matches Ok(text) ==> text@ == decode_utf8(bytes@),
;

/// `std::str::from_utf8` succeeds exactly on valid UTF-8, and the text it
/// gives is the one that the bytes encode.
pub assume_specification<'a>[ std::str::from_utf8 ](bytes: &'a [u8]) -> (decoded: Result<
    &'a str,
    std::str::Utf8Error,
>)
    ensures
        decoded is Ok <==> valid_utf8(bytes@),
        decoded matches Ok(text) ==> text@ == decode_utf8(bytes@),
;

} // verus!
