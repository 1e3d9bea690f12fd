//! Captured bytes as text.

use vstd::prelude::*;

verus! {

/// The text that the bytes decode to as UTF-8 when every invalid sequence is
/// replaced by U+FFFD.
pub uninterp spec fn utf8_lossy(bytes: Seq<u8>) -> Seq<char>;

/// Decodes with `String::from_utf8_lossy` and takes the result as an owned
/// string. The contract only names the outcome.
#[verifier::external_body]
pub(crate) fn decode_lossy(bytes: &[u8]) -> (text: String)
    ensures
        text@ == utf8_lossy(bytes@),
{
    String::from_utf8_lossy(bytes).into_owned()
}

} // verus!
