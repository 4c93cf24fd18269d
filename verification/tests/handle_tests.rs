//! Owned handle scenarios: construct, clone, borrow, release.

use owned_window_handle::{
    acquire_action, AcquireCall, AcquireOutcome, Impl, OwnedWindowHandle, RawWindow, ReleaseCall,
    TargetCaps,
};

/// A test double standing for the platform: it performs the named calls by
/// counting them and invents the platform's answers.
struct FakePlatform {
    acquires: usize,
    releases: usize,
}

impl FakePlatform {
    fn new() -> Self {
        FakePlatform { acquires: 0, releases: 0 }
    }

    /// Perform an acquire call: count it and answer as a healthy platform
    /// would.
    fn perform_acquire(&mut self, call: AcquireCall) -> AcquireOutcome {
        match call {
            AcquireCall::NoOp => AcquireOutcome::Done,
            AcquireCall::AndroidAcquire { .. } => {
                self.acquires += 1;
                AcquireOutcome::Done
            }
            AcquireCall::AppleRetain { view } => {
                self.acquires += 1;
                AcquireOutcome::Retained { view }
            }
            AcquireCall::WaylandAdopt { .. } => unreachable!("not used in these scenarios"),
            AcquireCall::WebLookup { .. } => {
                self.acquires += 1;
                AcquireOutcome::LookedUp { document: true, found: Some(0xC0FF) }
            }
            AcquireCall::WebCloneCanvas { .. } | AcquireCall::WebCloneOffscreen { .. } => {
                self.acquires += 1;
                AcquireOutcome::Cloned { obj: 0xC1FF }
            }
        }
    }

    /// Perform a release call: count it.
    fn perform_release(&mut self, call: ReleaseCall) {
        match call {
            ReleaseCall::NoOp => {}
            _ => self.releases += 1,
        }
    }

    /// Construct an owned handle the way an embedding program would.
    fn construct(
        &mut self,
        raw: RawWindow,
        caps: TargetCaps,
    ) -> Result<OwnedWindowHandle, owned_window_handle::Error> {
        let outcome = match acquire_action(raw, caps) {
            Ok(call) => self.perform_acquire(call),
            Err(e) => return Err(e),
        };
        OwnedWindowHandle::new(raw, caps, outcome)
    }

    /// Clone an owned handle the way an embedding program would.
    fn clone_handle(
        &mut self,
        h: &OwnedWindowHandle,
    ) -> Result<OwnedWindowHandle, owned_window_handle::Error> {
        let outcome = match h.imp {
            Impl::Direct { raw } => self.perform_acquire(acquire_action(raw, h.caps).unwrap()),
            Impl::Wayland { .. } => AcquireOutcome::Done,
        };
        h.try_clone(outcome)
    }

    /// Destroy an owned handle the way an embedding program would.
    fn destroy(&mut self, h: OwnedWindowHandle) {
        let call = h.release().unwrap();
        self.perform_release(call);
    }
}

#[test]
fn construct_then_destroy_is_one_acquire_one_release_per_variant() {
    let caps = TargetCaps { android: true, apple: true, web: true, wayland: false };
    let raws = vec![
        RawWindow::Xlib { window: 1 },
        RawWindow::Xcb { window: 2 },
        RawWindow::Win32 { hwnd: 3 },
        RawWindow::Drm { plane: 4 },
        RawWindow::AndroidNdk { a_native_window: 5 },
        RawWindow::AppKit { ns_view: 6 },
        RawWindow::UiKit { ui_view: 7 },
        RawWindow::Web { id: 8 },
        RawWindow::WebCanvas { obj: 9 },
        RawWindow::WebOffscreenCanvas { obj: 10 },
    ];
    for raw in raws {
        let mut platform = FakePlatform::new();
        let h = platform.construct(raw, caps).unwrap();
        platform.destroy(h);
        assert!(platform.acquires <= 1);
        assert_eq!(platform.acquires, platform.releases);
    }
}

#[test]
fn clone_is_independently_destructible() {
    let caps = TargetCaps { android: true, apple: true, web: true, wayland: false };
    let raws = vec![
        RawWindow::Xlib { window: 11 },
        RawWindow::AndroidNdk { a_native_window: 12 },
        RawWindow::AppKit { ns_view: 13 },
        RawWindow::WebCanvas { obj: 14 },
    ];
    for raw in raws {
        let mut platform = FakePlatform::new();
        let h = platform.construct(raw, caps).unwrap();
        let c = platform.clone_handle(&h).unwrap();
        // Dropping the original leaves the clone usable and releasable.
        platform.destroy(h);
        assert!(c.window_handle(0).is_ok());
        platform.destroy(c);
        assert_eq!(platform.acquires, platform.releases);
    }
}

#[test]
fn borrow_returns_the_originally_acquired_payload() {
    let caps = TargetCaps { android: false, apple: false, web: false, wayland: false };
    let raw = RawWindow::Xlib { window: 424242 };
    let mut platform = FakePlatform::new();
    let h = platform.construct(raw, caps).unwrap();
    assert_eq!(h.window_handle(0), Ok(raw));
    assert_eq!(h.window_handle(1), Ok(raw));
    platform.destroy(h);
}

#[test]
fn apple_clone_and_release_balance_to_zero() {
    let caps = TargetCaps { android: false, apple: true, web: false, wayland: false };
    let raw = RawWindow::AppKit { ns_view: 4096 };
    let mut platform = FakePlatform::new();
    let h = platform.construct(raw, caps).unwrap();
    let c = platform.clone_handle(&h).unwrap();
    assert_eq!(platform.acquires, 2);
    platform.destroy(h);
    platform.destroy(c);
    assert_eq!(platform.acquires, 2);
    assert_eq!(platform.releases, 2);
}

#[test]
fn numeric_id_survives_source_destruction_end_to_end() {
    // Construct from a live window, clone, destroy the source window, then
    // drop both handles: on a numeric-id platform no call ever touches the
    // stale object.
    let caps = TargetCaps { android: false, apple: false, web: false, wayland: false };
    let raw = RawWindow::Xcb { window: 900 };
    let mut platform = FakePlatform::new();
    let h = platform.construct(raw, caps).unwrap();
    let c = platform.clone_handle(&h).unwrap();
    // The source window object goes away here; the numeric id stays valid.
    assert_eq!(h.window_handle(0), Ok(raw));
    assert_eq!(c.window_handle(0), Ok(raw));
    let rel_h = h.release().unwrap();
    let rel_c = c.release().unwrap();
    assert_eq!(rel_h, ReleaseCall::NoOp);
    assert_eq!(rel_c, ReleaseCall::NoOp);
    assert_eq!(platform.acquires, 0);
    assert_eq!(platform.releases, 0);
}

#[test]
fn web_lookup_stores_the_owned_reference() {
    let caps = TargetCaps { android: false, apple: false, web: true, wayland: false };
    let mut platform = FakePlatform::new();
    let h = platform.construct(RawWindow::Web { id: 21 }, caps).unwrap();
    // The lookup's owned reference, not the id, is what the handle holds.
    assert_eq!(h.imp, Impl::Direct { raw: RawWindow::WebCanvas { obj: 0xC0FF } });
    platform.destroy(h);
    assert_eq!(platform.acquires, platform.releases);
}
