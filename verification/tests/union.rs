use raw_window_handle::AndroidNDKHandle;
use raw_window_handle::AppKitHandle;
use raw_window_handle::OrbitalHandle;
use raw_window_handle::RawWindowHandle;
use raw_window_handle::UIKitHandle;
use raw_window_handle::WaylandHandle;
use raw_window_handle::WebHandle;
use raw_window_handle::Win32Handle;
use raw_window_handle::WinRTHandle;
use raw_window_handle::XcbHandle;
use raw_window_handle::XlibHandle;

#[test]
fn xlib_round_trips_through_union() {
    let mut h = XlibHandle::empty();
    h.window = 77;
    h.display = 0x700;
    let raw = RawWindowHandle::Xlib(h);
    match raw {
        RawWindowHandle::Xlib(out) => assert_eq!(out, h),
        _ => panic!("wrong variant"),
    }
}

#[test]
fn wayland_round_trips_through_union() {
    let mut h = WaylandHandle::empty();
    h.surface = 41;
    let raw = RawWindowHandle::Wayland(h);
    match raw {
        RawWindowHandle::Wayland(out) => assert_eq!(out, h),
        _ => panic!("wrong variant"),
    }
}

#[test]
fn win32_round_trips_through_union() {
    let mut h = Win32Handle::empty();
    h.hwnd = 41;
    h.hinstance = 43;
    let raw = RawWindowHandle::Win32(h);
    match raw {
        RawWindowHandle::Win32(out) => assert_eq!(out, h),
        _ => panic!("wrong variant"),
    }
}

#[test]
fn web_round_trips_through_union() {
    let mut h = WebHandle::empty();
    h.id = 6;
    let raw = RawWindowHandle::Web(h);
    match raw {
        RawWindowHandle::Web(out) => assert_eq!(out, h),
        _ => panic!("wrong variant"),
    }
}

/// The platform a dispatching consumer routed a union value to, with a
/// fallback branch for variants the consumer does not recognize.
fn classify(raw: &RawWindowHandle) -> &'static str {
    match raw {
        RawWindowHandle::UIKit(_) => "uikit",
        RawWindowHandle::AppKit(_) => "appkit",
        RawWindowHandle::Orbital(_) => "orbital",
        RawWindowHandle::Xlib(_) => "xlib",
        RawWindowHandle::Xcb(_) => "xcb",
        RawWindowHandle::Wayland(_) => "wayland",
        RawWindowHandle::Win32(_) => "win32",
        RawWindowHandle::WinRT(_) => "winrt",
        RawWindowHandle::Web(_) => "web",
        RawWindowHandle::AndroidNDK(_) => "android_ndk",
        _ => "unsupported platform",
    }
}

#[test]
fn dispatch_classifies_every_variant() {
    assert_eq!(classify(&RawWindowHandle::UIKit(UIKitHandle::empty())), "uikit");
    assert_eq!(classify(&RawWindowHandle::AppKit(AppKitHandle::empty())), "appkit");
    assert_eq!(classify(&RawWindowHandle::Orbital(OrbitalHandle::empty())), "orbital");
    assert_eq!(classify(&RawWindowHandle::Xlib(XlibHandle::empty())), "xlib");
    assert_eq!(classify(&RawWindowHandle::Xcb(XcbHandle::empty())), "xcb");
    assert_eq!(classify(&RawWindowHandle::Wayland(WaylandHandle::empty())), "wayland");
    assert_eq!(classify(&RawWindowHandle::Win32(Win32Handle::empty())), "win32");
    assert_eq!(classify(&RawWindowHandle::WinRT(WinRTHandle::empty())), "winrt");
    assert_eq!(classify(&RawWindowHandle::Web(WebHandle::empty())), "web");
    assert_eq!(
        classify(&RawWindowHandle::AndroidNDK(AndroidNDKHandle::empty())),
        "android_ndk"
    );
}

#[test]
fn xlib_scenario_display_set_window_left_empty() {
    let mut h = XlibHandle::empty();
    h.display = 0xABCD;
    let raw = RawWindowHandle::Xlib(h);
    match raw {
        RawWindowHandle::Xlib(out) => {
            assert_eq!(out.window, 0);
            assert_eq!(out.display, 0xABCD);
        }
        _ => panic!("wrong variant"),
    }
}

#[test]
fn tag_is_part_of_identity() {
    let mut web = WebHandle::empty();
    web.id = 42;
    let mut win32 = Win32Handle::empty();
    win32.hwnd = 42;
    let a = RawWindowHandle::Web(web);
    let b = RawWindowHandle::Win32(win32);
    assert_ne!(a, b);
    match a {
        RawWindowHandle::Win32(_) => panic!("a Web handle must not match the Win32 branch"),
        _ => {}
    }
    match b {
        RawWindowHandle::Web(_) => panic!("a Win32 handle must not match the Web branch"),
        _ => {}
    }
}
