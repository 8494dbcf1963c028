//! The wire format of a list of network names.

use vstd::prelude::*;

verus! {

/// `serde_json::Error`: why a value could not be written as JSON. Opaque.
#[verifier::external_type_specification]
#[verifier::external_body]
pub struct ExJsonError(serde_json::Error);

/// The JSON text of a list of strings, as `serde_json::to_string` writes
/// it for a `Vec<String>`; `None` where it reports an error.
pub uninterp spec fn json_text(names: Seq<Seq<char>>) -> Option<Seq<char>>;

/// `serde_json::to_string` on a list of strings. The result depends on the
/// list alone: that is all the contract says, by giving it the name
/// [`json_text`].
#[verifier::external_body]
pub(crate) fn to_json(names: &Vec<String>) -> (r: Result<String, serde_json::Error>)
    ensures
        match r {
            Ok(text) => json_text(names.deep_view()) == Some(text@),
            Err(_) => json_text(names.deep_view()) is None,
        },
{
    serde_json::to_string(names)
}

} // verus!
