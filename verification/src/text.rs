use vstd::prelude::*;

verus! {

/// Whether two texts are the same text.
pub(crate) fn same_text(text: &str, other: &str) -> (same: bool)
    ensures
        same == (text@ == other@),
{
    text.to_owned() == other.to_owned()
}

} // verus!
