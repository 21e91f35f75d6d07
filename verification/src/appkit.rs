//! Raw window handles for AppKit.

use vstd::prelude::*;

verus! {

/// Raw window handle for AppKit.
///
/// The fields are opaque descriptors of resources owned by the AppKit
/// windowing subsystem; holding this value confers no ownership and no
/// lifetime guarantee for those resources.
#[derive(Debug, Clone, Copy, PartialEq, Eq, Hash, Structural)]
#[non_exhaustive]
pub struct AppKitHandle {
    /// The address of an `NSWindow` object. Zero means "not supplied".
    pub ns_window: usize,
    /// The address of an `NSView` object. Zero means "not supplied".
    pub ns_view: usize,
}

impl AppKitHandle {
    /// The all-sentinel value: every field at the reserved not-a-handle value.
    pub open spec fn empty_spec() -> Self {
        AppKitHandle { ns_window: 0, ns_view: 0 }
    }

    /// An instance with every field set to its sentinel, to be combined with
    /// explicit per-field overrides so that future fields do not break callers.
    pub fn empty() -> (r: Self)
        ensures
            r == Self::empty_spec(),
            r.ns_window == 0,
            r.ns_view == 0,
    {
        AppKitHandle { ns_window: 0, ns_view: 0 }
    }
}

/// Overriding one field of the all-sentinel value stores exactly the supplied
/// value, and leaves every other field at its sentinel.
pub proof fn lemma_appkit_override_read_back(ns_window: usize, ns_view: usize)
    ensures
        (AppKitHandle { ns_window, ..AppKitHandle::empty_spec() }).ns_window == ns_window,
        (AppKitHandle { ns_window, ..AppKitHandle::empty_spec() }).ns_view == 0,
        (AppKitHandle { ns_view, ..AppKitHandle::empty_spec() }).ns_view == ns_view,
        (AppKitHandle { ns_view, ..AppKitHandle::empty_spec() }).ns_window == 0,
{
}

} // verus!
