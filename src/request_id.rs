use vstd::prelude::*;

verus! {

/// Relies on uuid's `Uuid::new_v4` and its `Display`, which writes the
/// hyphenated form: 36 characters, with a hyphen at 8, 13, 18 and 23.
/// The value is random, so nothing more is stated of it.
#[verifier::external_body]
pub(crate) fn new_request_identifier() -> (r: String)
    ensures
        r@.len() == 36,
        r@[8] == '-',
        r@[13] == '-',
        r@[18] == '-',
        r@[23] == '-',
{
    uuid::Uuid::new_v4().to_string()
}

} // verus!
