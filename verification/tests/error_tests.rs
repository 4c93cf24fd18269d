//! The error taxonomy: message texts and adoption of the handle provider's
//! errors.

use owned_window_handle::{Error, ErrorKind, Platform};

#[test]
fn messages_match_the_taxonomy() {
    assert_eq!(Error(ErrorKind::NotSupported).message(), "unsupported platform");
    assert_eq!(Error(ErrorKind::Unavailable).message(), "window handle is unavailable");
    assert_eq!(
        Error(ErrorKind::UnknownHandleError).message(),
        "unknown raw window handle error"
    );
    assert_eq!(
        Error(ErrorKind::PlatformMismatch { expected: Platform::Android }).message(),
        "platform mismatch, expected: android"
    );
    assert_eq!(
        Error(ErrorKind::PlatformMismatch { expected: Platform::Apple }).message(),
        "platform mismatch, expected: apple"
    );
    assert_eq!(
        Error(ErrorKind::PlatformMismatch { expected: Platform::Wasm }).message(),
        "platform mismatch, expected: wasm"
    );
    assert_eq!(Error(ErrorKind::MissingWebElements).message(), "missing web elements");
    assert_eq!(
        Error(ErrorKind::CanvasNotFound { id: 42 }).message(),
        "canvas not found with id: 42"
    );
    assert_eq!(Error(ErrorKind::RetainFailed).message(), "failed to retain window handle");
    assert_eq!(Error(ErrorKind::WaylandNotEnabled).message(), "Wayland is not enabled");
    assert_eq!(
        Error(ErrorKind::WaylandNotRust).message(),
        "the resulting Wayland handle was not created by Rust's `wayland-backend`"
    );
}

#[test]
fn provider_errors_are_classified() {
    let e = Error::from_handle_error(raw_window_handle::HandleError::NotSupported);
    assert_eq!(e, Error(ErrorKind::NotSupported));
    let e = Error::from_handle_error(raw_window_handle::HandleError::Unavailable);
    assert_eq!(e, Error(ErrorKind::Unavailable));
}

#[test]
fn platform_names() {
    assert_eq!(Platform::Android.name(), "android");
    assert_eq!(Platform::Apple.name(), "apple");
    assert_eq!(Platform::Wasm.name(), "wasm");
}
