//! What the library relies on of std's text functions.

use vstd::prelude::*;
use vstd::utf8::{decode_utf8, valid_utf8};

verus! {

/// The error of `core::str::from_utf8`.
#[verifier::external_type_specification]
#[verifier::external_body]
pub struct ExUtf8Error(core::str::Utf8Error);

/// `core::str::from_utf8` succeeds on exactly the byte sequences that are UTF-8, and the
/// text it gives then is the one that the bytes encode.
pub assume_specification[ core::str::from_utf8 ](v: &[u8]) -> (text: Result<
    &str,
    core::str::Utf8Error,
>)
    ensures
        text is Ok <==> valid_utf8(v@),
        text matches Ok(s) ==> s@ == decode_utf8(v@),
;

/// `==` on `str`: two texts are equal when they hold the same characters.
pub assume_specification[ <str as PartialEq>::eq ](a: &str, b: &str) -> (same: bool)
    ensures
        same == (a@ == b@),
;

} // verus!
