//! Raw window handles for the Redox operating system.

use vstd::prelude::*;

verus! {

/// Raw window handle for the Orbital windowing system on Redox.
///
/// The field is an opaque descriptor of a resource owned by the Orbital
/// windowing subsystem; holding this value confers no ownership and no
/// lifetime guarantee for that resource.
#[derive(Debug, Clone, Copy, PartialEq, Eq, Hash, Structural)]
#[non_exhaustive]
pub struct OrbitalHandle {
    /// The address of an Orbital window. Zero means "not supplied".
    pub window: usize,
}

impl OrbitalHandle {
    /// The all-sentinel value: every field at the reserved not-a-handle value.
    pub open spec fn empty_spec() -> Self {
        OrbitalHandle { window: 0 }
    }

    /// An instance with every field set to its sentinel, to be combined with
    /// explicit per-field overrides so that future fields do not break callers.
    pub fn empty() -> (r: Self)
        ensures
            r == Self::empty_spec(),
            r.window == 0,
    {
        OrbitalHandle { window: 0 }
    }
}

/// Overriding the field of the all-sentinel value stores exactly the supplied
/// value.
pub proof fn lemma_orbital_override_read_back(window: usize)
    ensures
        (OrbitalHandle { window }).window == window,
{
}

} // verus!
