use raw_window_handle::HasRawWindowHandle;
use raw_window_handle::OrbitalHandle;
use raw_window_handle::RawWindowHandle;
use raw_window_handle::TrustedWindowHandle;
use raw_window_handle::WebHandle;
use raw_window_handle::XlibHandle;

#[test]
fn unchecked_construction_round_trips() {
    let mut h = XlibHandle::empty();
    h.window = 13;
    h.display = 0x1300;
    let raw = RawWindowHandle::Xlib(h);
    let trusted = TrustedWindowHandle::new(raw);
    assert_eq!(trusted.raw_window_handle(), raw);
}

/// A producer stub that always describes the same fixed window.
struct FixedWindow {
    handle: RawWindowHandle,
}

impl HasRawWindowHandle for FixedWindow {
    fn handle_spec(&self) -> RawWindowHandle {
        self.handle
    }

    fn raw_window_handle(&self) -> RawWindowHandle {
        self.handle
    }
}

#[test]
fn extraction_returns_the_producers_handle() {
    let mut h = WebHandle::empty();
    h.id = 99;
    let v = RawWindowHandle::Web(h);
    let producer = FixedWindow { handle: v };
    let trusted = TrustedWindowHandle::from_has_raw_window_handle(&producer);
    assert_eq!(trusted.raw_window_handle(), v);
}

#[test]
fn trusted_wrapper_is_itself_a_producer() {
    let mut h = OrbitalHandle::empty();
    h.window = 4;
    let raw = RawWindowHandle::Orbital(h);
    let trusted = TrustedWindowHandle::new(raw);
    let again = TrustedWindowHandle::from_has_raw_window_handle(&trusted);
    assert_eq!(again.raw_window_handle(), raw);
}

#[test]
fn repeated_calls_return_the_same_handle() {
    let mut h = WebHandle::empty();
    h.id = 8;
    let raw = RawWindowHandle::Web(h);
    let trusted = TrustedWindowHandle::new(raw);
    assert_eq!(trusted.raw_window_handle(), trusted.raw_window_handle());
}
