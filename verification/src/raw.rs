//! A plain-data model of platform window handles.
//!
//! A raw window handle is a tagged union of platform payloads: numeric
//! identifiers for Xlib, XCB, Win32, DRM and the web `data-raw-handle`
//! attribute, and object addresses for Wayland surfaces, Android native
//! windows, Apple views and ABI-transferred web canvases.  The payload never
//! owns memory; ownership is established only by the acquire/release
//! protocol applied to it.

use vstd::prelude::*;

verus! {

/// A raw window handle, reduced to its platform tag and plain payload.
///
/// Pointer-shaped payloads are carried as addresses; a null address never
/// denotes a live object, which the well-formedness predicate records.
#[derive(Clone, Copy, PartialEq, Eq, Structural, Debug)]
pub enum RawWindow {
    /// An Xlib window: a numeric identifier, valid even after the window is
    /// destroyed.
    Xlib { window: u64 },
    /// An XCB window: a nonzero numeric identifier.
    Xcb { window: u32 },
    /// A Win32 window: a nonzero index into a thread-local table.
    Win32 { hwnd: isize },
    /// A DRM plane: a numeric identifier.
    Drm { plane: u32 },
    /// A Wayland surface: the address of a `wl_surface` proxy.
    Wayland { surface: usize },
    /// An Android native window: the address of an `ANativeWindow`.
    AndroidNdk { a_native_window: usize },
    /// An AppKit view: the address of an `NSView`.
    AppKit { ns_view: usize },
    /// A UIKit view: the address of a `UIView`.
    UiKit { ui_view: usize },
    /// A web canvas named by the numeric value of its `data-raw-handle`
    /// attribute.
    Web { id: u32 },
    /// A web canvas as an ABI-transferred object reference.
    WebCanvas { obj: usize },
    /// A web offscreen canvas as an ABI-transferred object reference.
    WebOffscreenCanvas { obj: usize },
    /// A handle kind this library does not anticipate.
    Unknown,
}

impl RawWindow {
    /// Payloads that stand for object references or nonzero identifiers must
    /// not be null.
    pub open spec fn wf(self) -> bool {
        match self {
            RawWindow::Xcb { window } => window != 0,
            RawWindow::Win32 { hwnd } => hwnd != 0,
            RawWindow::Wayland { surface } => surface != 0,
            RawWindow::AndroidNdk { a_native_window } => a_native_window != 0,
            RawWindow::AppKit { ns_view } => ns_view != 0,
            RawWindow::UiKit { ui_view } => ui_view != 0,
            RawWindow::WebCanvas { obj } => obj != 0,
            RawWindow::WebOffscreenCanvas { obj } => obj != 0,
            _ => true,
        }
    }
}

/// Which platform backends the running build was compiled with.
///
/// The acquire/release protocol is target-dependent: a handle for a platform
/// that is compiled out must be refused symmetrically at acquire and at
/// release.  The embedding program describes its build here, each flag from
/// the corresponding compile-time test.
#[derive(Clone, Copy, PartialEq, Eq, Structural, Debug)]
pub struct TargetCaps {
    /// The build targets Android and can call the native window refcount.
    pub android: bool,
    /// The build targets an Apple platform and can send retain/release.
    pub apple: bool,
    /// The build targets the web and can reach the DOM.
    pub web: bool,
    /// The build carries the Wayland client backend.
    pub wayland: bool,
}

} // verus!
