use base64::Engine;
use vstd::prelude::*;

verus! {

/// The bytes that standard base64 (with padding) decodes `text` to, if it is
/// well formed.
pub uninterp spec fn base64_decoded(text: Seq<char>) -> Option<Seq<u8>>;

/// Relies on base64's `STANDARD` engine `decode`: `Ok` with the decoded bytes
/// for well-formed input, an error otherwise; the result depends on the text
/// alone.
#[verifier::external_body]
pub(crate) fn decode_base64(text: &str) -> (r: Option<Vec<u8>>)
    ensures
        base64_decoded(text@) == (match r {
            Some(v) => Some(v@),
            None => None::<Seq<u8>>,
        }),
{
    base64::engine::general_purpose::STANDARD.decode(text).ok()
}

} // verus!
