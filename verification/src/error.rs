//! The error taxonomy of the handle protocol.
//!
//! Every failure is reported as a value of one closed taxonomy: errors
//! passed through from the handle provider, platform mismatches for handle
//! kinds compiled out of the build, web lookup failures, a failed Apple
//! retain, and the two Wayland refusals.

use crate::digits::{dec_rep, u32_dec};
use vstd::prelude::*;

verus! {

/// A platform a handle can belong to while the build cannot serve it.
#[derive(Clone, Copy, PartialEq, Eq, Structural, Debug)]
pub enum Platform {
    /// Android, for native window handles.
    Android,
    /// An Apple platform, for AppKit and UIKit view handles.
    Apple,
    /// The web, for canvas handles.
    Wasm,
}

impl Platform {
    /// The platform's name, as reported in a mismatch error.
    pub open spec fn name_spec(self) -> Seq<char> {
        match self {
            Platform::Android => "android"@,
            Platform::Apple => "apple"@,
            Platform::Wasm => "wasm"@,
        }
    }

    /// The platform's name, as reported in a mismatch error.
    pub fn name(&self) -> (r: &'static str)
        ensures
            r@ == self.name_spec(),
    {
        match self {
            Platform::Android => "android",
            Platform::Apple => "apple",
            Platform::Wasm => "wasm",
        }
    }
}

/// What went wrong while acquiring, releasing or borrowing a handle.
#[derive(Clone, Copy, PartialEq, Eq, Structural, Debug)]
pub enum ErrorKind {
    /// The handle provider, or this library, does not support the handle's
    /// kind.
    NotSupported,
    /// The underlying handle is gone.
    Unavailable,
    /// The handle provider failed in a way this library does not classify.
    UnknownHandleError,
    /// The handle belongs to a platform that is compiled out of this build.
    PlatformMismatch { expected: Platform },
    /// The web document or window could not be reached.
    MissingWebElements,
    /// No canvas carries the requested `data-raw-handle` id.
    CanvasNotFound { id: u32 },
    /// The retain message returned a null object.
    RetainFailed,
    /// The build carries no Wayland client backend.
    WaylandNotEnabled,
    /// The Wayland object was not created by the expected client backend.
    WaylandNotRust,
}

/// Error type for window handle operations.
#[derive(Clone, Copy, PartialEq, Eq, Structural, Debug)]
pub struct Error(pub ErrorKind);

/// The message text for each error.
pub open spec fn message_spec(e: Error) -> Seq<char> {
    match e.0 {
        ErrorKind::NotSupported => "unsupported platform"@,
        ErrorKind::Unavailable => "window handle is unavailable"@,
        ErrorKind::UnknownHandleError => "unknown raw window handle error"@,
        ErrorKind::PlatformMismatch { expected } => "platform mismatch, expected: "@
            + expected.name_spec(),
        ErrorKind::MissingWebElements => "missing web elements"@,
        ErrorKind::CanvasNotFound { id } => "canvas not found with id: "@ + dec_rep(id as nat),
        ErrorKind::RetainFailed => "failed to retain window handle"@,
        ErrorKind::WaylandNotEnabled => "Wayland is not enabled"@,
        ErrorKind::WaylandNotRust => "the resulting Wayland handle was not created by Rust's `wayland-backend`"@,
    }
}

impl Error {
    /// The kind of failure.
    pub fn kind(&self) -> (r: ErrorKind)
        ensures
            r == self.0,
    {
        self.0
    }

    /// A human-readable description of the failure.
    pub fn message(&self) -> (r: String)
        ensures
            r@ == message_spec(*self),
    {
        match self.0 {
            ErrorKind::NotSupported => String::from_str("unsupported platform"),
            ErrorKind::Unavailable => String::from_str("window handle is unavailable"),
            ErrorKind::UnknownHandleError => String::from_str("unknown raw window handle error"),
            ErrorKind::PlatformMismatch { expected } => {
                let mut s: String = String::from_str("platform mismatch, expected: ");
                s.append(expected.name());
                s
            },
            ErrorKind::MissingWebElements => String::from_str("missing web elements"),
            ErrorKind::CanvasNotFound { id } => {
                let mut s: String = String::from_str("canvas not found with id: ");
                let digits: String = u32_dec(id);
                s.append(digits.as_str());
                s
            },
            ErrorKind::RetainFailed => String::from_str("failed to retain window handle"),
            ErrorKind::WaylandNotEnabled => String::from_str("Wayland is not enabled"),
            ErrorKind::WaylandNotRust => String::from_str(
                "the resulting Wayland handle was not created by Rust's `wayland-backend`",
            ),
        }
    }

    /// Adopt a failure reported by the handle provider.
    ///
    /// The provider's own error values say that the handle's kind is
    /// unsupported or that the handle is gone; anything else is carried as
    /// an unclassified provider failure.
    pub fn from_handle_error(err: raw_window_handle::HandleError) -> (r: Error)
        ensures
            r.0 == ErrorKind::NotSupported || r.0 == ErrorKind::Unavailable || r.0
                == ErrorKind::UnknownHandleError,
    {
        Error(classify_handle_error(err))
    }
}

/// The handle provider's error type, held opaquely.
#[verifier::external_type_specification]
#[verifier::external_body]
pub struct ExHandleError(raw_window_handle::HandleError);

/// Relies on `raw_window_handle::HandleError`: a non-exhaustive enum whose
/// variants `NotSupported` and `Unavailable` are told apart here; any other
/// variant is unclassified.
#[verifier::external_body]
fn classify_handle_error(err: raw_window_handle::HandleError) -> (r: ErrorKind)
    ensures
        r == ErrorKind::NotSupported || r == ErrorKind::Unavailable || r
            == ErrorKind::UnknownHandleError,
{
    match err {
        raw_window_handle::HandleError::NotSupported => ErrorKind::NotSupported,
        raw_window_handle::HandleError::Unavailable => ErrorKind::Unavailable,
        _ => ErrorKind::UnknownHandleError,
    }
}

} // verus!
