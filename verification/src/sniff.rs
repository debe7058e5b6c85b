//! Content-type detection: what kind of file a sequence of bytes is.

use vstd::prelude::*;

verus! {

/// The MIME type that the `infer` crate finds for a content, if it finds one. It is
/// decided by the content alone.
pub uninterp spec fn detected_mime(content: Seq<u8>) -> Option<Seq<char>>;

/// `infer::get` followed by `Type::mime_type`.
#[verifier::external_body]
pub(crate) fn infer_mime(content: &[u8]) -> (mime: Option<String>)
    ensures
        mime is Some <==> detected_mime(content@) is Some,
        mime matches Some(m) ==> detected_mime(content@) == Some(m@),
{
    match infer::get(content) {
        Some(kind) => Some(kind.mime_type().to_owned()),
        None => None,
    }
}

} // verus!
