//! What the library asks of std about strings beyond what vstd specifies.

use vstd::prelude::*;

verus! {

/// The text without the white space at its two ends, as `str::trim` of std
/// cuts it: white space is what Unicode gives the property `White_Space`.
pub uninterp spec fn trimmed(text: Seq<char>) -> Seq<char>;

/// Calls `str::trim` of std and copies the slice that it returns. The
/// contract claims only that the copy is a function of the text.
#[verifier::external_body]
pub(crate) fn trim_copy(text: &str) -> (copy: String)
    ensures
        copy@ == trimmed(text@),
{
    text.trim().to_string()
}

} // verus!
