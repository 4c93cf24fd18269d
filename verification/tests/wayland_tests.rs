//! Wayland tracking: provenance validation, cheap clones, borrow after
//! destruction.

use owned_window_handle::{
    acquire_action, AcquireCall, AcquireOutcome, BackendRef, BackendReport, Error, ErrorKind,
    Impl, OwnedWindowHandle, RawWindow, TargetCaps, WaylandHandle,
};

fn wayland_build() -> TargetCaps {
    TargetCaps { android: false, apple: false, web: false, wayland: true }
}

#[test]
fn adoption_tracks_backend_and_surface() {
    let caps = wayland_build();
    let raw = RawWindow::Wayland { surface: 0x5AFE };
    assert_eq!(acquire_action(raw, caps), Ok(AcquireCall::WaylandAdopt { surface: 0x5AFE }));
    let report = BackendReport { display: 0xD15, id_ok: true, data_ok: true };
    let h = OwnedWindowHandle::new(raw, caps, AcquireOutcome::Backend { report }).unwrap();
    assert_eq!(
        h.imp,
        Impl::Wayland {
            handle: WaylandHandle {
                backend: BackendRef { display: 0xD15 },
                surface: 0x5AFE,
            }
        }
    );
}

#[test]
fn foreign_surface_fails_with_wayland_not_rust() {
    let caps = wayland_build();
    let raw = RawWindow::Wayland { surface: 0x5AFE };
    // The backend formed an id but holds no user data for it: the object
    // was not created by the expected client backend.
    let report = BackendReport { display: 0xD15, id_ok: true, data_ok: false };
    let r = OwnedWindowHandle::new(raw, caps, AcquireOutcome::Backend { report });
    assert_eq!(r.unwrap_err(), Error(ErrorKind::WaylandNotRust));
    // The pointer was not even id-shaped: same refusal.
    let report = BackendReport { display: 0xD15, id_ok: false, data_ok: false };
    let r = OwnedWindowHandle::new(raw, caps, AcquireOutcome::Backend { report });
    assert_eq!(r.unwrap_err(), Error(ErrorKind::WaylandNotRust));
}

#[test]
fn wayland_clone_copies_the_tracked_pair() {
    let caps = wayland_build();
    let raw = RawWindow::Wayland { surface: 0x5AFE };
    let report = BackendReport { display: 0xD15, id_ok: true, data_ok: true };
    let h = OwnedWindowHandle::new(raw, caps, AcquireOutcome::Backend { report }).unwrap();
    let c = h.try_clone(AcquireOutcome::Done).unwrap();
    assert_eq!(c.imp, h.imp);
    assert_eq!(h.release().unwrap(), owned_window_handle::ReleaseCall::NoOp);
    // The clone outlives the original's release untouched.
    assert!(c.window_handle(0x5AFE).is_ok());
    assert_eq!(c.release().unwrap(), owned_window_handle::ReleaseCall::NoOp);
}

#[test]
fn construction_without_backend_fails_with_wayland_not_enabled() {
    let caps = TargetCaps { android: false, apple: false, web: false, wayland: false };
    let r = OwnedWindowHandle::new(RawWindow::Wayland { surface: 4 }, caps, AcquireOutcome::Done);
    assert_eq!(r.unwrap_err(), Error(ErrorKind::WaylandNotEnabled));
}

#[test]
fn borrow_tracks_the_current_pointer() {
    let caps = wayland_build();
    let raw = RawWindow::Wayland { surface: 0x5AFE };
    let report = BackendReport { display: 0xD15, id_ok: true, data_ok: true };
    let h = OwnedWindowHandle::new(raw, caps, AcquireOutcome::Backend { report }).unwrap();
    // While the proxy lives, borrowing yields its current address.
    assert_eq!(h.window_handle(0x5AFE), Ok(RawWindow::Wayland { surface: 0x5AFE }));
    // Once the object is destroyed the backend reports null: unavailable.
    assert_eq!(h.window_handle(0), Err(Error(ErrorKind::Unavailable)));
}
