//! Raw window handles for UIKit.

use vstd::prelude::*;

verus! {

/// Raw window handle for UIKit (Apple's non-macOS windowing library).
///
/// The fields are opaque descriptors of resources owned by the UIKit
/// windowing subsystem; holding this value confers no ownership and no
/// lifetime guarantee for those resources.
#[derive(Debug, Clone, Copy, PartialEq, Eq, Hash, Structural)]
#[non_exhaustive]
pub struct UIKitHandle {
    /// The address of a `UIWindow` object. Zero means "not supplied".
    pub ui_window: usize,
    /// The address of a `UIView` object. Zero means "not supplied".
    pub ui_view: usize,
    /// The address of a `UIViewController` object. Zero means "not supplied".
    pub ui_view_controller: usize,
}

impl UIKitHandle {
    /// The all-sentinel value: every field at the reserved not-a-handle value.
    pub open spec fn empty_spec() -> Self {
        UIKitHandle { ui_window: 0, ui_view: 0, ui_view_controller: 0 }
    }

    /// An instance with every field set to its sentinel, to be combined with
    /// explicit per-field overrides so that future fields do not break callers.
    pub fn empty() -> (r: Self)
        ensures
            r == Self::empty_spec(),
            r.ui_window == 0,
            r.ui_view == 0,
            r.ui_view_controller == 0,
    {
        UIKitHandle { ui_window: 0, ui_view: 0, ui_view_controller: 0 }
    }
}

/// Overriding one field of the all-sentinel value stores exactly the supplied
/// value, and leaves every other field at its sentinel.
pub proof fn lemma_uikit_override_read_back(
    ui_window: usize,
    ui_view: usize,
    ui_view_controller: usize,
)
    ensures
        (UIKitHandle { ui_window, ..UIKitHandle::empty_spec() }).ui_window == ui_window,
        (UIKitHandle { ui_window, ..UIKitHandle::empty_spec() }).ui_view == 0,
        (UIKitHandle { ui_window, ..UIKitHandle::empty_spec() }).ui_view_controller == 0,
        (UIKitHandle { ui_view, ..UIKitHandle::empty_spec() }).ui_view == ui_view,
        (UIKitHandle { ui_view, ..UIKitHandle::empty_spec() }).ui_window == 0,
        (UIKitHandle { ui_view_controller, ..UIKitHandle::empty_spec() }).ui_view_controller
            == ui_view_controller,
        (UIKitHandle { ui_view_controller, ..UIKitHandle::empty_spec() }).ui_window == 0,
{
}

} // verus!
