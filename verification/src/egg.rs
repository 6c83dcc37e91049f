//! The engine's greeting.

use vstd::prelude::*;
use vstd::utf8::*;

verus! {

/// The text that `String::from_utf8_lossy` makes of a row of bytes.
pub uninterp spec fn lossy_text(bytes: Seq<u8>) -> Seq<char>;

/// `String::from_utf8_lossy`: its text depends on the bytes alone, and for valid UTF-8
/// it is the text that they encode. How other bytes are replaced is not stated here.
#[verifier::external_body]
fn string_from_utf8_lossy(bytes: &[u8]) -> (r: String)
    ensures
        r@ == lossy_text(bytes@),
        valid_utf8(bytes@) ==> r@ == decode_utf8(bytes@),
{
    String::from_utf8_lossy(bytes).into_owned()
}

/// A little surprise: the bytes that the engine greets with, as text, or an empty text
/// where it has none.
pub fn dynarmic_colorful_egg(greeting: Option<&[u8]>) -> (r: String)
    ensures
        greeting is None ==> r@ == Seq::<char>::empty(),
        greeting matches Some(bytes) ==> r@ == lossy_text(bytes@),
        greeting matches Some(bytes) ==> valid_utf8(bytes@) ==> r@ == decode_utf8(bytes@),
{
    match greeting {
        Some(bytes) => string_from_utf8_lossy(bytes),
        None => String::new(),
    }
}

} // verus!
