//! Raw window handles for the Unix windowing systems: Xlib, Xcb and Wayland.

use vstd::prelude::*;

verus! {

/// Raw window handle for Xlib.
///
/// The fields are opaque descriptors of resources owned by the X server and
/// the Xlib connection; holding this value confers no ownership and no
/// lifetime guarantee for those resources.
#[derive(Debug, Clone, Copy, PartialEq, Eq, Hash, Structural)]
#[non_exhaustive]
pub struct XlibHandle {
    /// An Xlib `Window`. Zero means "not supplied".
    pub window: u64,
    /// The address of an Xlib `Display` connection. Zero means "not supplied".
    pub display: usize,
}

impl XlibHandle {
    /// The all-sentinel value: every field at the reserved not-a-handle value.
    pub open spec fn empty_spec() -> Self {
        XlibHandle { window: 0, display: 0 }
    }

    /// An instance with every field set to its sentinel, to be combined with
    /// explicit per-field overrides so that future fields do not break callers.
    pub fn empty() -> (r: Self)
        ensures
            r == Self::empty_spec(),
            r.window == 0,
            r.display == 0,
    {
        XlibHandle { window: 0, display: 0 }
    }
}

/// Raw window handle for Xcb.
///
/// The fields are opaque descriptors of resources owned by the X server and
/// the XCB connection; holding this value confers no ownership and no
/// lifetime guarantee for those resources.
#[derive(Debug, Clone, Copy, PartialEq, Eq, Hash, Structural)]
#[non_exhaustive]
pub struct XcbHandle {
    /// An X11 `xcb_window_t`. Zero means "not supplied".
    pub window: u32,
    /// The address of an `xcb_connection_t`. Zero means "not supplied".
    pub connection: usize,
}

impl XcbHandle {
    /// The all-sentinel value: every field at the reserved not-a-handle value.
    pub open spec fn empty_spec() -> Self {
        XcbHandle { window: 0, connection: 0 }
    }

    /// An instance with every field set to its sentinel, to be combined with
    /// explicit per-field overrides so that future fields do not break callers.
    pub fn empty() -> (r: Self)
        ensures
            r == Self::empty_spec(),
            r.window == 0,
            r.connection == 0,
    {
        XcbHandle { window: 0, connection: 0 }
    }
}

/// Raw window handle for Wayland.
///
/// The fields are opaque descriptors of resources owned by the Wayland
/// compositor connection; holding this value confers no ownership and no
/// lifetime guarantee for those resources.
#[derive(Debug, Clone, Copy, PartialEq, Eq, Hash, Structural)]
#[non_exhaustive]
pub struct WaylandHandle {
    /// The address of a `wl_surface`. Zero means "not supplied".
    pub surface: usize,
    /// The address of a `wl_display`. Zero means "not supplied".
    pub display: usize,
}

impl WaylandHandle {
    /// The all-sentinel value: every field at the reserved not-a-handle value.
    pub open spec fn empty_spec() -> Self {
        WaylandHandle { surface: 0, display: 0 }
    }

    /// An instance with every field set to its sentinel, to be combined with
    /// explicit per-field overrides so that future fields do not break callers.
    pub fn empty() -> (r: Self)
        ensures
            r == Self::empty_spec(),
            r.surface == 0,
            r.display == 0,
    {
        WaylandHandle { surface: 0, display: 0 }
    }
}

/// Overriding one field of the all-sentinel value stores exactly the supplied
/// value, and leaves every other field at its sentinel.
pub proof fn lemma_xlib_override_read_back(window: u64, display: usize)
    ensures
        (XlibHandle { window, ..XlibHandle::empty_spec() }).window == window,
        (XlibHandle { window, ..XlibHandle::empty_spec() }).display == 0,
        (XlibHandle { display, ..XlibHandle::empty_spec() }).display == display,
        (XlibHandle { display, ..XlibHandle::empty_spec() }).window == 0,
{
}

/// Overriding one field of the all-sentinel value stores exactly the supplied
/// value, and leaves every other field at its sentinel.
pub proof fn lemma_xcb_override_read_back(window: u32, connection: usize)
    ensures
        (XcbHandle { window, ..XcbHandle::empty_spec() }).window == window,
        (XcbHandle { window, ..XcbHandle::empty_spec() }).connection == 0,
        (XcbHandle { connection, ..XcbHandle::empty_spec() }).connection == connection,
        (XcbHandle { connection, ..XcbHandle::empty_spec() }).window == 0,
{
}

/// Overriding one field of the all-sentinel value stores exactly the supplied
/// value, and leaves every other field at its sentinel.
pub proof fn lemma_wayland_override_read_back(surface: usize, display: usize)
    ensures
        (WaylandHandle { surface, ..WaylandHandle::empty_spec() }).surface == surface,
        (WaylandHandle { surface, ..WaylandHandle::empty_spec() }).display == 0,
        (WaylandHandle { display, ..WaylandHandle::empty_spec() }).display == display,
        (WaylandHandle { display, ..WaylandHandle::empty_spec() }).surface == 0,
{
}

} // verus!
