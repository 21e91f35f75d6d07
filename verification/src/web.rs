//! Raw window handles for the Web.

use vstd::prelude::*;

verus! {

/// Raw window handle for the Web.
///
/// The field is an opaque identifier of a canvas element owned by the
/// browser's document; holding this value confers no ownership and no
/// lifetime guarantee for that element.
#[derive(Debug, Clone, Copy, PartialEq, Eq, Hash, Structural)]
#[non_exhaustive]
pub struct WebHandle {
    /// An ID value inserted into the data attributes of the canvas element as
    /// `raw-handle`, so that the canvas can be located on the page. Zero means
    /// "not supplied".
    pub id: u32,
}

impl WebHandle {
    /// The all-sentinel value: every field at the reserved not-a-handle value.
    pub open spec fn empty_spec() -> Self {
        WebHandle { id: 0 }
    }

    /// An instance with every field set to its sentinel, to be combined with
    /// explicit per-field overrides so that future fields do not break callers.
    pub fn empty() -> (r: Self)
        ensures
            r == Self::empty_spec(),
            r.id == 0,
    {
        WebHandle { id: 0 }
    }
}

/// Overriding the field of the all-sentinel value stores exactly the supplied
/// value.
pub proof fn lemma_web_override_read_back(id: u32)
    ensures
        (WebHandle { id }).id == id,
{
}

} // verus!
