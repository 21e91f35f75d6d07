//! Raw window handles for Android NDK.

use vstd::prelude::*;

verus! {

/// Raw window handle for Android NDK.
///
/// The field is an opaque descriptor of a resource owned by the Android
/// windowing subsystem; holding this value confers no ownership and no
/// lifetime guarantee for that resource.
#[derive(Debug, Clone, Copy, PartialEq, Eq, Hash, Structural)]
#[non_exhaustive]
pub struct AndroidNDKHandle {
    /// The address of an `ANativeWindow`. Zero means "not supplied".
    pub a_native_window: usize,
}

impl AndroidNDKHandle {
    /// The all-sentinel value: every field at the reserved not-a-handle value.
    pub open spec fn empty_spec() -> Self {
        AndroidNDKHandle { a_native_window: 0 }
    }

    /// An instance with every field set to its sentinel, to be combined with
    /// explicit per-field overrides so that future fields do not break callers.
    pub fn empty() -> (r: Self)
        ensures
            r == Self::empty_spec(),
            r.a_native_window == 0,
    {
        AndroidNDKHandle { a_native_window: 0 }
    }
}

/// Overriding the field of the all-sentinel value stores exactly the supplied
/// value.
pub proof fn lemma_android_ndk_override_read_back(a_native_window: usize)
    ensures
        (AndroidNDKHandle { a_native_window }).a_native_window == a_native_window,
{
}

} // verus!
