use vstd::prelude::*;

verus! {

/// A mesh would hold more vertices than its index type can address.
#[derive(Clone, Copy, Debug, PartialEq, Eq, Structural)]
pub struct IndicesOverflowError;

impl IndicesOverflowError {
    /// What went wrong and what to do about it, for a log or a dialog.
    pub fn message(&self) -> (text: String)
        ensures
            text@ == IndicesOverflowError::spec_message(),
    {
        let text: &'static str = "Indices overflow in mesh generation: Please reduce amount of levels, sections, segments or leaves or use 32 bit indices.";
        text.to_string()
    }

    /// The text of [`IndicesOverflowError::message`].
    pub open spec fn spec_message() -> Seq<char> {
        "Indices overflow in mesh generation: Please reduce amount of levels, sections, segments or leaves or use 32 bit indices."@
    }
}

} // verus!
