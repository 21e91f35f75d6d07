//! Raw window handles for the Windows windowing systems: Win32 and WinRT.

use vstd::prelude::*;

verus! {

/// Raw window handle for Win32.
///
/// The fields are opaque descriptors of resources owned by the Win32
/// windowing subsystem; holding this value confers no ownership and no
/// lifetime guarantee for those resources.
#[derive(Debug, Clone, Copy, PartialEq, Eq, Hash, Structural)]
#[non_exhaustive]
pub struct Win32Handle {
    /// A Win32 `HWND`. Zero means "not supplied".
    pub hwnd: usize,
    /// The `HINSTANCE` associated with this type. Zero means "not supplied".
    pub hinstance: usize,
}

impl Win32Handle {
    /// The all-sentinel value: every field at the reserved not-a-handle value.
    pub open spec fn empty_spec() -> Self {
        Win32Handle { hwnd: 0, hinstance: 0 }
    }

    /// An instance with every field set to its sentinel, to be combined with
    /// explicit per-field overrides so that future fields do not break callers.
    pub fn empty() -> (r: Self)
        ensures
            r == Self::empty_spec(),
            r.hwnd == 0,
            r.hinstance == 0,
    {
        Win32Handle { hwnd: 0, hinstance: 0 }
    }
}

/// Raw window handle for WinRT.
///
/// The field is an opaque descriptor of a resource owned by the WinRT
/// windowing subsystem; holding this value confers no ownership and no
/// lifetime guarantee for that resource.
#[derive(Debug, Clone, Copy, PartialEq, Eq, Hash, Structural)]
#[non_exhaustive]
pub struct WinRTHandle {
    /// The address of an `ICoreWindow` object. Zero means "not supplied".
    pub core_window: usize,
}

impl WinRTHandle {
    /// The all-sentinel value: every field at the reserved not-a-handle value.
    pub open spec fn empty_spec() -> Self {
        WinRTHandle { core_window: 0 }
    }

    /// An instance with every field set to its sentinel, to be combined with
    /// explicit per-field overrides so that future fields do not break callers.
    pub fn empty() -> (r: Self)
        ensures
            r == Self::empty_spec(),
            r.core_window == 0,
    {
        WinRTHandle { core_window: 0 }
    }
}

/// Overriding one field of the all-sentinel value stores exactly the supplied
/// value, and leaves every other field at its sentinel.
pub proof fn lemma_win32_override_read_back(hwnd: usize, hinstance: usize)
    ensures
        (Win32Handle { hwnd, ..Win32Handle::empty_spec() }).hwnd == hwnd,
        (Win32Handle { hwnd, ..Win32Handle::empty_spec() }).hinstance == 0,
        (Win32Handle { hinstance, ..Win32Handle::empty_spec() }).hinstance == hinstance,
        (Win32Handle { hinstance, ..Win32Handle::empty_spec() }).hwnd == 0,
{
}

/// Overriding the field of the all-sentinel value stores exactly the supplied
/// value.
pub proof fn lemma_winrt_override_read_back(core_window: usize)
    ensures
        (WinRTHandle { core_window }).core_window == core_window,
{
}

} // verus!
