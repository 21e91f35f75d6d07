//! Interoperability contract for Rust windowing applications.
//!
//! This library provides standard types for accessing a window's
//! platform-specific raw window handle. It does not provide any utilities for
//! creating and managing windows; instead, it provides a common interface that
//! window creation libraries can use to talk with graphics libraries.
//!
//! Each platform handle struct is purposefully non-exhaustive, so that
//! additional fields may be added without breaking backwards compatibility.
//! Each struct provides an `empty` constructor whose contract guarantees that
//! every field starts at its sentinel (not-a-handle) value; producers then
//! overwrite only the fields they can actually supply.
//!
//! No type here owns the window or display it describes: every field is a
//! view-only descriptor of a resource whose lifetime is managed entirely by
//! the producing windowing library, so none of these types carries cleanup
//! logic of any kind.

use vstd::prelude::*;

mod android;
mod appkit;
mod redox;
mod uikit;
mod unix;
mod web;
mod windows;

pub use android::AndroidNDKHandle;
pub use android::lemma_android_ndk_override_read_back;
pub use appkit::AppKitHandle;
pub use appkit::lemma_appkit_override_read_back;
pub use redox::OrbitalHandle;
pub use redox::lemma_orbital_override_read_back;
pub use uikit::UIKitHandle;
pub use uikit::lemma_uikit_override_read_back;
pub use unix::WaylandHandle;
pub use unix::XcbHandle;
pub use unix::XlibHandle;
pub use unix::lemma_wayland_override_read_back;
pub use unix::lemma_xcb_override_read_back;
pub use unix::lemma_xlib_override_read_back;
pub use web::WebHandle;
pub use web::lemma_web_override_read_back;
pub use windows::Win32Handle;
pub use windows::WinRTHandle;
pub use windows::lemma_win32_override_read_back;
pub use windows::lemma_winrt_override_read_back;

verus! {

/// Window that wraps around a raw window handle.
///
/// # Safety guarantees
///
/// Users can assume that non-zero fields are valid handles, and it is up to
/// the implementer of this trait to ensure that condition is upheld. The type
/// system cannot check that promise: implementing this trait is an explicit,
/// auditable act of asserting it.
///
/// Despite that qualification, implementers should still make a best-effort
/// attempt to fill in all available fields. If an implementation doesn't, and
/// a downstream user needs the field, it should try to derive the field from
/// other fields the implementer *does* provide via whatever methods the
/// platform provides.
///
/// The exact handles returned by `raw_window_handle` must remain consistent
/// between multiple calls to `raw_window_handle` as long as not indicated
/// otherwise by platform specific events. That stability promise is a
/// documentation-level contract between producer and consumer; `handle_spec`
/// names the handle a given state of the producer describes, and the method's
/// contract pins the returned value to it.
pub trait HasRawWindowHandle {
    /// The raw window handle that this value currently describes.
    spec fn handle_spec(&self) -> RawWindowHandle;

    /// Produce the raw window handle describing this window.
    ///
    /// There is no failure mode: a producer that cannot supply a handle at
    /// all must not implement this trait for that state.
    fn raw_window_handle(&self) -> (r: RawWindowHandle)
        ensures
            r == self.handle_spec(),
    ;
}

/// An enum to simply combine the different possible raw window handle
/// variants.
///
/// # Variant Availability
///
/// Note that all variants are present on all targets, but see the
/// "Availability Hints" section on each variant for some hints on where this
/// variant might be expected.
///
/// Note that these "Availability Hints" are not normative. That is to say, a
/// [`HasRawWindowHandle`] implementor is completely allowed to return
/// something unexpected.
///
/// The set of variants is open for future growth: new platforms are added
/// over time without being considered breaking changes, so consumers matching
/// on this type must include a fallback arm and treat an unrecognized variant
/// as "platform not supported" rather than as a hard failure.
#[derive(Debug, Clone, Copy, PartialEq, Eq, Hash, Structural)]
#[non_exhaustive]
pub enum RawWindowHandle {
    /// A raw window handle for UIKit (Apple's non-macOS windowing library).
    ///
    /// ## Availability Hints
    /// This variant is likely to be used on iOS, tvOS, watchOS, and Mac
    /// Catalyst, as these are the targets that currently support UIKit.
    UIKit(UIKitHandle),
    /// A raw window handle for AppKit.
    ///
    /// ## Availability Hints
    /// This variant is likely to be used on macOS, although Mac Catalyst can
    /// also use it.
    AppKit(AppKitHandle),
    /// A raw window handle for the Redox operating system.
    ///
    /// ## Availability Hints
    /// This variant is used by the Orbital windowing system in the Redox
    /// operating system.
    Orbital(OrbitalHandle),
    /// A raw window handle for Xlib.
    ///
    /// ## Availability Hints
    /// This variant is likely to show up anywhere someone manages to get X11
    /// working that Xlib can be built for, which is to say, most (but not
    /// all) Unix systems.
    Xlib(XlibHandle),
    /// A raw window handle for Xcb.
    ///
    /// ## Availability Hints
    /// This variant is likely to show up anywhere someone manages to get X11
    /// working that XCB can be built for, which is to say, most (but not all)
    /// Unix systems.
    Xcb(XcbHandle),
    /// A raw window handle for Wayland.
    ///
    /// ## Availability Hints
    /// This variant should be expected anywhere Wayland works, which is
    /// currently some subset of unix systems.
    Wayland(WaylandHandle),
    /// A raw window handle for Win32.
    ///
    /// ## Availability Hints
    /// This variant is used on Windows systems.
    Win32(Win32Handle),
    /// A raw window handle for WinRT.
    ///
    /// ## Availability Hints
    /// This variant is used on Windows systems.
    WinRT(WinRTHandle),
    /// A raw window handle for the Web.
    ///
    /// ## Availability Hints
    /// This variant is used on Wasm or asm.js targets when targeting the
    /// Web/HTML5.
    Web(WebHandle),
    /// A raw window handle for Android NDK.
    ///
    /// ## Availability Hints
    /// This variant is used on Android targets.
    AndroidNDK(AndroidNDKHandle),
}

/// Wrapping a payload in its variant and pattern-matching it back out yields
/// the original payload, and a value carries exactly the variant it was
/// constructed with: the tag is part of the value's identity.
pub proof fn lemma_union_round_trip(
    uikit: UIKitHandle,
    appkit: AppKitHandle,
    orbital: OrbitalHandle,
    xlib: XlibHandle,
    xcb: XcbHandle,
    wayland: WaylandHandle,
    win32: Win32Handle,
    winrt: WinRTHandle,
    web: WebHandle,
    android_ndk: AndroidNDKHandle,
)
    ensures
        (RawWindowHandle::UIKit(uikit) matches RawWindowHandle::UIKit(h) && h == uikit),
        (RawWindowHandle::AppKit(appkit) matches RawWindowHandle::AppKit(h) && h == appkit),
        (RawWindowHandle::Orbital(orbital) matches RawWindowHandle::Orbital(h) && h == orbital),
        (RawWindowHandle::Xlib(xlib) matches RawWindowHandle::Xlib(h) && h == xlib),
        (RawWindowHandle::Xcb(xcb) matches RawWindowHandle::Xcb(h) && h == xcb),
        (RawWindowHandle::Wayland(wayland) matches RawWindowHandle::Wayland(h) && h == wayland),
        (RawWindowHandle::Win32(win32) matches RawWindowHandle::Win32(h) && h == win32),
        (RawWindowHandle::WinRT(winrt) matches RawWindowHandle::WinRT(h) && h == winrt),
        (RawWindowHandle::Web(web) matches RawWindowHandle::Web(h) && h == web),
        (RawWindowHandle::AndroidNDK(android_ndk) matches RawWindowHandle::AndroidNDK(h)
            && h == android_ndk),
{
}

/// Whether two union values carry the same tag, whatever their payloads hold.
pub open spec fn same_variant(a: RawWindowHandle, b: RawWindowHandle) -> bool {
    ||| (a is UIKit && b is UIKit)
    ||| (a is AppKit && b is AppKit)
    ||| (a is Orbital && b is Orbital)
    ||| (a is Xlib && b is Xlib)
    ||| (a is Xcb && b is Xcb)
    ||| (a is Wayland && b is Wayland)
    ||| (a is Win32 && b is Win32)
    ||| (a is WinRT && b is WinRT)
    ||| (a is Web && b is Web)
    ||| (a is AndroidNDK && b is AndroidNDK)
}

/// Two union values built from different variants are never equal, whatever
/// their payloads hold: the tag takes part in every comparison.
pub proof fn lemma_distinct_variants_unequal(a: RawWindowHandle, b: RawWindowHandle)
    ensures
        !same_variant(a, b) ==> a != b,
{
}

/// This wraps a [`RawWindowHandle`] to give it a [`HasRawWindowHandle`] impl.
///
/// Anyone can make any `RawWindowHandle` value in safe code, since the enum's
/// fields are public, yet downstream consumers rely on such a value carrying
/// accurate window handle info. The solution is that you assert that you are
/// trusting a particular handle value by placing it within this wrapper
/// struct through the explicitly named unchecked constructor [`Self::new`].
pub struct TrustedWindowHandle {
    raw: RawWindowHandle,
}

impl TrustedWindowHandle {
    /// Assert that the [`RawWindowHandle`] value can be trusted.
    ///
    /// The wrapper hands the value back unchanged: the handle later produced
    /// from the result equals `raw`.
    ///
    /// ## Safety
    /// No runtime check is performed, and none is possible. If the value
    /// violates any of the safety outlines given in the
    /// [`HasRawWindowHandle`] trait, the caller of this constructor — not the
    /// wrapper — is responsible for the undefined behavior that may follow at
    /// the point of later use.
    pub fn new(raw: RawWindowHandle) -> (r: Self)
        ensures
            r.handle_spec() == raw,
    {
        Self { raw }
    }

    /// Read from a [`HasRawWindowHandle`] into being a trusted value.
    ///
    /// The handle later produced from the result equals the handle `fr`
    /// describes: trust is inherited from `fr`'s own implementation, and no
    /// additional checking is performed.
    pub fn from_has_raw_window_handle<H: HasRawWindowHandle>(fr: &H) -> (r: Self)
        ensures
            r.handle_spec() == fr.handle_spec(),
    {
        Self { raw: fr.raw_window_handle() }
    }
}

impl HasRawWindowHandle for TrustedWindowHandle {
    closed spec fn handle_spec(&self) -> RawWindowHandle {
        self.raw
    }

    fn raw_window_handle(&self) -> RawWindowHandle {
        self.raw
    }
}

} // verus!
