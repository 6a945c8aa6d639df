//! Reading the bytes of a process's output as text.

use vstd::prelude::*;
use vstd::utf8::{decode_utf8, valid_utf8};

verus! {

/// The text that a lossy reading of `bytes` as UTF-8 gives.
pub uninterp spec fn utf8_lossy(bytes: Seq<u8>) -> Seq<char>;

/// Reads `bytes` as text with `String::from_utf8_lossy`. Trusted: the text is
/// a function of the bytes alone, and bytes that are valid UTF-8 are read as
/// the characters they encode.
#[verifier::external_body]
pub(crate) fn lossy_text(bytes: &[u8]) -> (text: String)
    ensures
        text@ == utf8_lossy(bytes@),
        valid_utf8(bytes@) ==> text@ == decode_utf8(bytes@),
{
    String::from_utf8_lossy(bytes).into_owned()
}

} // verus!
