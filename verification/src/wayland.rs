//! Tracking of Wayland surfaces through the owning client backend.
//!
//! Wayland surfaces are proxies with no universal retain primitive.
//! Ownership is instead expressed by holding a strong reference to the
//! client backend that dispatches the surface, together with the surface's
//! object id.  Before adopting a surface the backend is asked about it; a
//! surface the backend does not recognize was not created by the expected
//! client implementation and is refused, so no foreign object is silently
//! adopted.
//!
//! The backend itself lives outside this crate.  The embedding program
//! recovers it from the surface pointer's display and reports what it said;
//! this module decides, and its decisions are proved.

use crate::error::{Error, ErrorKind};
use crate::raw::RawWindow;
use vstd::prelude::*;

verus! {

/// A strong reference to a Wayland client backend, identified by the
/// address of the display connection it wraps.
///
/// Clones of a tracked handle duplicate this reference; the client library
/// manages the object's lifetime internally, so duplication needs no
/// platform call and no paired release.
#[derive(Clone, Copy, PartialEq, Eq, Structural, Debug)]
pub struct BackendRef {
    /// The address of the backend's `wl_display`.
    pub display: usize,
}

/// What the client backend reported about a surface pointer.
///
/// The embedding program recovers the backend from the pointer's display,
/// asks it to form an object id for the `wl_surface` interface, and looks
/// up the user data registered for that id.
#[derive(Clone, Copy, PartialEq, Eq, Structural, Debug)]
pub struct BackendReport {
    /// The address of the `wl_display` the backend was recovered from.
    pub display: usize,
    /// The backend formed an object id for the pointer.
    pub id_ok: bool,
    /// The backend holds user data for that id: the object is one of its
    /// own.
    pub data_ok: bool,
}

/// A Wayland surface tracked through its owning backend.
#[derive(Clone, Copy, PartialEq, Eq, Structural, Debug)]
pub struct WaylandHandle {
    /// The owning client backend, held strongly.
    pub backend: BackendRef,
    /// The address of the tracked `wl_surface` proxy at adoption.
    pub surface: usize,
}

impl WaylandHandle {
    /// A tracked surface was live when adopted.
    pub open spec fn wf(self) -> bool {
        self.surface != 0
    }
}

/// What adopting a surface yields: the tracked pair exactly when the
/// backend vouched for the object, and `WaylandNotRust` otherwise.
pub open spec fn clone_handle_spec(surface: usize, report: BackendReport) -> Result<
    WaylandHandle,
    Error,
> {
    if report.id_ok && report.data_ok {
        Ok(
            (WaylandHandle {
                backend: (BackendRef { display: report.display }),
                surface,
            }),
        )
    } else {
        Err(Error(ErrorKind::WaylandNotRust))
    }
}

/// Adopt a surface the backend was asked about.
///
/// Provenance is validated: if the backend could not form an id for the
/// pointer, or holds no user data for the id, the object was not created by
/// the expected client implementation and adoption fails with
/// `WaylandNotRust`.  No acquire of any kind is performed; success merely
/// keeps the backend reference.
pub fn clone_handle(surface: usize, report: &BackendReport) -> (r: Result<WaylandHandle, Error>)
    requires
        surface != 0,
    ensures
        r == clone_handle_spec(surface, *report),
        r matches Ok(h) ==> h.wf(),
{
    if !report.id_ok {
        Err(Error(ErrorKind::WaylandNotRust))
    } else if !report.data_ok {
        Err(Error(ErrorKind::WaylandNotRust))
    } else {
        Ok(WaylandHandle { backend: BackendRef { display: report.display }, surface })
    }
}

/// Translate a tracked surface back to pointer form.
///
/// `current` is the proxy address the backend reports for the tracked id
/// now, zero if the object has been destroyed since adoption.  A live
/// surface is returned as a raw Wayland handle; a dead one fails with
/// `Unavailable`.
pub fn as_ptr(handle: &WaylandHandle, current: usize) -> (r: Result<RawWindow, Error>)
    ensures
        current != 0 ==> r == Ok::<RawWindow, Error>((RawWindow::Wayland { surface: current })),
        current == 0 ==> r == Err::<RawWindow, Error>(Error(ErrorKind::Unavailable)),
{
    if current == 0 {
        Err(Error(ErrorKind::Unavailable))
    } else {
        Ok(RawWindow::Wayland { surface: current })
    }
}

} // verus!
