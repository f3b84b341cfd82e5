//! Text that arrives as raw bytes.

use vstd::prelude::*;
use vstd::utf8::*;

verus! {

/// The text that lossy UTF-8 decoding yields for `bytes`: the decoded
/// characters, with U+FFFD standing for each malformed stretch.
pub uninterp spec fn lossy_text(bytes: Seq<u8>) -> Seq<char>;

/// Calls `String::from_utf8_lossy`. The result depends on the bytes alone and
/// is named `lossy_text`; for well-formed UTF-8 the standard library documents
/// that the text comes back unchanged, which is its decoding.
#[verifier::external_body]
pub(crate) fn decode_lossy(bytes: &[u8]) -> (text: String)
    ensures
        text@ == lossy_text(bytes@),
        valid_utf8(bytes@) ==> text@ == decode_utf8(bytes@),
{
    String::from_utf8_lossy(bytes).into_owned()
}

} // verus!
