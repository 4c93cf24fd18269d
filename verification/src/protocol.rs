//! The platform refcount protocol.
//!
//! A pure mapping from handle variant to acquire and release behaviour:
//! numeric identifiers (Xlib, XCB, Win32, DRM) stay valid after their source
//! object is destroyed and need no call at all; Android native windows take
//! a native acquire/release pair; Apple views take retain/release messages;
//! Wayland surfaces are adopted through the client backend; web canvases
//! are resolved or cloned and later dropped as DOM objects.  A handle for a
//! platform compiled out of the build is refused symmetrically at acquire
//! and at release, because release safety depends on matching the acquire
//! contract exactly.
//!
//! The platform calls themselves are impure and target-specific, so the
//! protocol names them as data: [`acquire_action`] says which call to make,
//! [`inc_refcount`] consumes the call's outcome, and [`dec_refcount`] says
//! which call undoes the acquire.

use crate::error::{Error, ErrorKind, Platform};
use crate::raw::{RawWindow, TargetCaps};
use crate::wayland;
use crate::wayland::{BackendReport, WaylandHandle};
use vstd::pervasive::unreached;
use vstd::prelude::*;

verus! {

/// The platform call that acquires a handle, if any.
#[derive(Clone, Copy, PartialEq, Eq, Structural, Debug)]
pub enum AcquireCall {
    /// No call: the payload is a plain identifier.
    NoOp,
    /// Bump the native refcount of the Android window at this address.
    AndroidAcquire { a_native_window: usize },
    /// Send the retain message to the view object at this address.
    AppleRetain { view: usize },
    /// Ask the client backend about the surface at this address.
    WaylandAdopt { surface: usize },
    /// Query the document for the canvas tagged with this id, with the
    /// selector that [`crate::selector`] renders for it.
    WebLookup { id: u32 },
    /// Clone the canvas behind this ABI reference.
    WebCloneCanvas { obj: usize },
    /// Clone the offscreen canvas behind this ABI reference.
    WebCloneOffscreen { obj: usize },
}

/// What the platform returned for an acquire call.
#[derive(Clone, Copy, PartialEq, Eq, Structural, Debug)]
pub enum AcquireOutcome {
    /// The call returns nothing: nothing was called, or the native acquire
    /// ran.
    Done,
    /// The pointer the retain message returned, zero if it returned nil.
    Retained { view: usize },
    /// What the Wayland client backend reported about the surface.
    Backend { report: BackendReport },
    /// What the document query found: whether the document was reachable,
    /// and the ABI reference of the canvas if one carries the id.  The
    /// lookup already yields an owned reference; live references are
    /// nonzero.
    LookedUp { document: bool, found: Option<usize> },
    /// The ABI reference of the owned clone; nonzero for a live object.
    Cloned { obj: usize },
}

/// The platform call that releases a handle, if any.
#[derive(Clone, Copy, PartialEq, Eq, Structural, Debug)]
pub enum ReleaseCall {
    /// No call: the payload was never acquired by one.
    NoOp,
    /// Drop the native refcount of the Android window at this address.
    AndroidRelease { a_native_window: usize },
    /// Send the release message to the view object at this address.
    AppleRelease { view: usize },
    /// Reconstruct the canvas owned through this ABI reference and drop it.
    WebDropCanvas { obj: usize },
    /// Reconstruct the offscreen canvas owned through this ABI reference
    /// and drop it.
    WebDropOffscreen { obj: usize },
}

/// The acquire half of the dispatch table: which call acquires a handle of
/// this variant under this build, or which error refuses it without any
/// call being made.
pub open spec fn acquire_action_spec(raw: RawWindow, caps: TargetCaps) -> Result<
    AcquireCall,
    Error,
> {
    match raw {
        RawWindow::Xlib { .. } => Ok(AcquireCall::NoOp),
        RawWindow::Xcb { .. } => Ok(AcquireCall::NoOp),
        RawWindow::Win32 { .. } => Ok(AcquireCall::NoOp),
        RawWindow::Drm { .. } => Ok(AcquireCall::NoOp),
        RawWindow::Wayland { surface } => if caps.wayland {
            Ok((AcquireCall::WaylandAdopt { surface }))
        } else {
            Err(Error(ErrorKind::WaylandNotEnabled))
        },
        RawWindow::AndroidNdk { a_native_window } => if caps.android {
            Ok((AcquireCall::AndroidAcquire { a_native_window }))
        } else {
            Err(Error((ErrorKind::PlatformMismatch { expected: Platform::Android })))
        },
        RawWindow::AppKit { ns_view } => if caps.apple {
            Ok((AcquireCall::AppleRetain { view: ns_view }))
        } else {
            Err(Error((ErrorKind::PlatformMismatch { expected: Platform::Apple })))
        },
        RawWindow::UiKit { ui_view } => if caps.apple {
            Ok((AcquireCall::AppleRetain { view: ui_view }))
        } else {
            Err(Error((ErrorKind::PlatformMismatch { expected: Platform::Apple })))
        },
        RawWindow::Web { id } => if caps.web {
            Ok((AcquireCall::WebLookup { id }))
        } else {
            Err(Error((ErrorKind::PlatformMismatch { expected: Platform::Wasm })))
        },
        RawWindow::WebCanvas { obj } => if caps.web {
            Ok((AcquireCall::WebCloneCanvas { obj }))
        } else {
            Err(Error((ErrorKind::PlatformMismatch { expected: Platform::Wasm })))
        },
        RawWindow::WebOffscreenCanvas { obj } => if caps.web {
            Ok((AcquireCall::WebCloneOffscreen { obj }))
        } else {
            Err(Error((ErrorKind::PlatformMismatch { expected: Platform::Wasm })))
        },
        RawWindow::Unknown => Err(Error(ErrorKind::NotSupported)),
    }
}

/// Which call acquires a handle of this variant under this build, or which
/// error refuses it without any call being made.
pub fn acquire_action(raw: RawWindow, caps: TargetCaps) -> (r: Result<AcquireCall, Error>)
    ensures
        r == acquire_action_spec(raw, caps),
{
    match raw {
        RawWindow::Xlib { .. } => Ok(AcquireCall::NoOp),
        RawWindow::Xcb { .. } => Ok(AcquireCall::NoOp),
        RawWindow::Win32 { .. } => Ok(AcquireCall::NoOp),
        RawWindow::Drm { .. } => Ok(AcquireCall::NoOp),
        RawWindow::Wayland { surface } => if caps.wayland {
            Ok(AcquireCall::WaylandAdopt { surface })
        } else {
            Err(Error(ErrorKind::WaylandNotEnabled))
        },
        RawWindow::AndroidNdk { a_native_window } => if caps.android {
            Ok(AcquireCall::AndroidAcquire { a_native_window })
        } else {
            Err(Error(ErrorKind::PlatformMismatch { expected: Platform::Android }))
        },
        RawWindow::AppKit { ns_view } => if caps.apple {
            Ok(AcquireCall::AppleRetain { view: ns_view })
        } else {
            Err(Error(ErrorKind::PlatformMismatch { expected: Platform::Apple }))
        },
        RawWindow::UiKit { ui_view } => if caps.apple {
            Ok(AcquireCall::AppleRetain { view: ui_view })
        } else {
            Err(Error(ErrorKind::PlatformMismatch { expected: Platform::Apple }))
        },
        RawWindow::Web { id } => if caps.web {
            Ok(AcquireCall::WebLookup { id })
        } else {
            Err(Error(ErrorKind::PlatformMismatch { expected: Platform::Wasm }))
        },
        RawWindow::WebCanvas { obj } => if caps.web {
            Ok(AcquireCall::WebCloneCanvas { obj })
        } else {
            Err(Error(ErrorKind::PlatformMismatch { expected: Platform::Wasm }))
        },
        RawWindow::WebOffscreenCanvas { obj } => if caps.web {
            Ok(AcquireCall::WebCloneOffscreen { obj })
        } else {
            Err(Error(ErrorKind::PlatformMismatch { expected: Platform::Wasm }))
        },
        RawWindow::Unknown => Err(Error(ErrorKind::NotSupported)),
    }
}

/// The outcome a platform can return for a given acquire call.
pub open spec fn outcome_matches(call: AcquireCall, outcome: AcquireOutcome) -> bool {
    match call {
        AcquireCall::NoOp => outcome is Done,
        AcquireCall::AndroidAcquire { .. } => outcome is Done,
        AcquireCall::AppleRetain { .. } => outcome is Retained,
        AcquireCall::WaylandAdopt { .. } => outcome is Backend,
        AcquireCall::WebLookup { .. } => outcome matches AcquireOutcome::LookedUp { found, .. }
            && (found matches Some(obj) ==> obj != 0),
        AcquireCall::WebCloneCanvas { .. } => outcome matches AcquireOutcome::Cloned { obj } && obj
            != 0,
        AcquireCall::WebCloneOffscreen { .. } => outcome matches AcquireOutcome::Cloned { obj }
            && obj != 0,
    }
}

/// How an owned handle holds its payload.
#[derive(Clone, Copy, PartialEq, Eq, Structural, Debug)]
pub enum Impl {
    /// A payload refcounted directly through the dispatch table.  Every
    /// variant except Wayland is held this way.
    Direct { raw: RawWindow },
    /// A Wayland surface tracked through its owning backend.
    Wayland { handle: WaylandHandle },
}

impl Impl {
    /// What acquisition can have stored: a well-formed payload, never a raw
    /// Wayland pointer (those are tracked, not stored directly) and never
    /// an id-only web handle (acquisition resolves it to a canvas
    /// reference).
    pub open spec fn wf(self) -> bool {
        match self {
            Impl::Direct { raw } => raw.wf() && !(raw is Wayland) && !(raw is Web),
            Impl::Wayland { handle } => handle.wf(),
        }
    }
}

/// The result of acquisition: what is stored, or which error refused the
/// handle, given what the platform returned.
pub open spec fn inc_spec(raw: RawWindow, caps: TargetCaps, outcome: AcquireOutcome) -> Result<
    Impl,
    Error,
> {
    if acquire_action_spec(raw, caps) is Err {
        Err(acquire_action_spec(raw, caps)->Err_0)
    } else {
        match raw {
            RawWindow::Wayland { surface } => match outcome {
                AcquireOutcome::Backend { report } => match wayland::clone_handle_spec(
                    surface,
                    report,
                ) {
                    Ok(handle) => Ok((Impl::Wayland { handle })),
                    Err(e) => Err(e),
                },
                _ => arbitrary(),
            },
            RawWindow::AppKit { .. } => match outcome {
                AcquireOutcome::Retained { view } => if view == 0 {
                    Err(Error(ErrorKind::RetainFailed))
                } else {
                    Ok((Impl::Direct { raw: (RawWindow::AppKit { ns_view: view }) }))
                },
                _ => arbitrary(),
            },
            RawWindow::UiKit { .. } => match outcome {
                AcquireOutcome::Retained { view } => if view == 0 {
                    Err(Error(ErrorKind::RetainFailed))
                } else {
                    Ok((Impl::Direct { raw: (RawWindow::UiKit { ui_view: view }) }))
                },
                _ => arbitrary(),
            },
            RawWindow::Web { id } => match outcome {
                AcquireOutcome::LookedUp { document, found } => if !document {
                    Err(Error(ErrorKind::MissingWebElements))
                } else {
                    match found {
                        Some(obj) => Ok((Impl::Direct { raw: (RawWindow::WebCanvas { obj }) })),
                        None => Err(Error((ErrorKind::CanvasNotFound { id }))),
                    }
                },
                _ => arbitrary(),
            },
            RawWindow::WebCanvas { .. } => match outcome {
                AcquireOutcome::Cloned { obj } => Ok(
                    (Impl::Direct { raw: (RawWindow::WebCanvas { obj }) }),
                ),
                _ => arbitrary(),
            },
            RawWindow::WebOffscreenCanvas { .. } => match outcome {
                AcquireOutcome::Cloned { obj } => Ok(
                    (Impl::Direct { raw: (RawWindow::WebOffscreenCanvas { obj }) }),
                ),
                _ => arbitrary(),
            },
            _ => Ok((Impl::Direct { raw })),
        }
    }
}

/// Acquire a handle: store the payload the platform's answer establishes
/// ownership of, or refuse the handle.
///
/// The caller performs the call named by [`acquire_action`] first and hands
/// its outcome in; for a refused handle no call was named and `Done` is
/// handed in.
pub fn inc_refcount(raw: RawWindow, caps: TargetCaps, outcome: AcquireOutcome) -> (r: Result<
    Impl,
    Error,
>)
    requires
        raw.wf(),
        acquire_action_spec(raw, caps) matches Ok(call) ==> outcome_matches(call, outcome),
    ensures
        r == inc_spec(raw, caps, outcome),
        r matches Ok(imp) ==> imp.wf(),
{
    match acquire_action(raw, caps) {
        Err(e) => Err(e),
        Ok(call) => match call {
            AcquireCall::NoOp => Ok(Impl::Direct { raw }),
            AcquireCall::AndroidAcquire { .. } => Ok(Impl::Direct { raw }),
            AcquireCall::AppleRetain { .. } => match outcome {
                AcquireOutcome::Retained { view } => if view == 0 {
                    Err(Error(ErrorKind::RetainFailed))
                } else if matches!(raw, RawWindow::AppKit { .. }) {
                    Ok(Impl::Direct { raw: RawWindow::AppKit { ns_view: view } })
                } else {
                    Ok(Impl::Direct { raw: RawWindow::UiKit { ui_view: view } })
                },
                _ => unreached(),
            },
            AcquireCall::WaylandAdopt { surface } => match outcome {
                AcquireOutcome::Backend { report } => match wayland::clone_handle(
                    surface,
                    &report,
                ) {
                    Ok(handle) => Ok(Impl::Wayland { handle }),
                    Err(e) => Err(e),
                },
                _ => unreached(),
            },
            AcquireCall::WebLookup { id } => match outcome {
                AcquireOutcome::LookedUp { document, found } => if !document {
                    Err(Error(ErrorKind::MissingWebElements))
                } else {
                    match found {
                        Some(obj) => Ok(Impl::Direct { raw: RawWindow::WebCanvas { obj } }),
                        None => Err(Error(ErrorKind::CanvasNotFound { id })),
                    }
                },
                _ => unreached(),
            },
            AcquireCall::WebCloneCanvas { .. } => match outcome {
                AcquireOutcome::Cloned { obj } => Ok(
                    Impl::Direct { raw: RawWindow::WebCanvas { obj } },
                ),
                _ => unreached(),
            },
            AcquireCall::WebCloneOffscreen { .. } => match outcome {
                AcquireOutcome::Cloned { obj } => Ok(
                    Impl::Direct { raw: RawWindow::WebOffscreenCanvas { obj } },
                ),
                _ => unreached(),
            },
        },
    }
}

/// The release half of the dispatch table: which call releases a directly
/// stored payload under this build, or which error refuses it.
///
/// Wayland surfaces and id-only web handles are never stored directly, so
/// the table does not define them.
pub open spec fn release_action_spec(raw: RawWindow, caps: TargetCaps) -> Result<
    ReleaseCall,
    Error,
> {
    match raw {
        RawWindow::Xlib { .. } => Ok(ReleaseCall::NoOp),
        RawWindow::Xcb { .. } => Ok(ReleaseCall::NoOp),
        RawWindow::Win32 { .. } => Ok(ReleaseCall::NoOp),
        RawWindow::Drm { .. } => Ok(ReleaseCall::NoOp),
        RawWindow::Wayland { .. } => arbitrary(),
        RawWindow::AndroidNdk { a_native_window } => if caps.android {
            Ok((ReleaseCall::AndroidRelease { a_native_window }))
        } else {
            Err(Error((ErrorKind::PlatformMismatch { expected: Platform::Android })))
        },
        RawWindow::AppKit { ns_view } => if caps.apple {
            Ok((ReleaseCall::AppleRelease { view: ns_view }))
        } else {
            Err(Error((ErrorKind::PlatformMismatch { expected: Platform::Apple })))
        },
        RawWindow::UiKit { ui_view } => if caps.apple {
            Ok((ReleaseCall::AppleRelease { view: ui_view }))
        } else {
            Err(Error((ErrorKind::PlatformMismatch { expected: Platform::Apple })))
        },
        RawWindow::Web { .. } => arbitrary(),
        RawWindow::WebCanvas { obj } => if caps.web {
            Ok((ReleaseCall::WebDropCanvas { obj }))
        } else {
            Err(Error((ErrorKind::PlatformMismatch { expected: Platform::Wasm })))
        },
        RawWindow::WebOffscreenCanvas { obj } => if caps.web {
            Ok((ReleaseCall::WebDropOffscreen { obj }))
        } else {
            Err(Error((ErrorKind::PlatformMismatch { expected: Platform::Wasm })))
        },
        RawWindow::Unknown => Err(Error(ErrorKind::NotSupported)),
    }
}

/// Release a directly stored payload: name the call that undoes its
/// acquire, or refuse it.
///
/// Wayland surfaces and id-only web handles are never stored directly, so
/// they are not accepted here.
pub fn dec_refcount(raw: RawWindow, caps: TargetCaps) -> (r: Result<ReleaseCall, Error>)
    requires
        !(raw is Wayland),
        !(raw is Web),
    ensures
        r == release_action_spec(raw, caps),
{
    match raw {
        RawWindow::Xlib { .. } => Ok(ReleaseCall::NoOp),
        RawWindow::Xcb { .. } => Ok(ReleaseCall::NoOp),
        RawWindow::Win32 { .. } => Ok(ReleaseCall::NoOp),
        RawWindow::Drm { .. } => Ok(ReleaseCall::NoOp),
        RawWindow::AndroidNdk { a_native_window } => if caps.android {
            Ok(ReleaseCall::AndroidRelease { a_native_window })
        } else {
            Err(Error(ErrorKind::PlatformMismatch { expected: Platform::Android }))
        },
        RawWindow::AppKit { ns_view } => if caps.apple {
            Ok(ReleaseCall::AppleRelease { view: ns_view })
        } else {
            Err(Error(ErrorKind::PlatformMismatch { expected: Platform::Apple }))
        },
        RawWindow::UiKit { ui_view } => if caps.apple {
            Ok(ReleaseCall::AppleRelease { view: ui_view })
        } else {
            Err(Error(ErrorKind::PlatformMismatch { expected: Platform::Apple }))
        },
        RawWindow::WebCanvas { obj } => if caps.web {
            Ok(ReleaseCall::WebDropCanvas { obj })
        } else {
            Err(Error(ErrorKind::PlatformMismatch { expected: Platform::Wasm }))
        },
        RawWindow::WebOffscreenCanvas { obj } => if caps.web {
            Ok(ReleaseCall::WebDropOffscreen { obj })
        } else {
            Err(Error(ErrorKind::PlatformMismatch { expected: Platform::Wasm }))
        },
        RawWindow::Unknown => Err(Error(ErrorKind::NotSupported)),
        RawWindow::Wayland { .. } => unreached(),
        RawWindow::Web { .. } => unreached(),
    }
}

/// A release call undoes an acquire call exactly: same kind, same object.
pub open spec fn undoes(call: AcquireCall, outcome: AcquireOutcome, rel: ReleaseCall) -> bool {
    match call {
        AcquireCall::NoOp => rel is NoOp,
        AcquireCall::AndroidAcquire { a_native_window } => rel == (ReleaseCall::AndroidRelease {
            a_native_window,
        }),
        AcquireCall::AppleRetain { .. } => outcome matches AcquireOutcome::Retained { view } && rel
            == (ReleaseCall::AppleRelease { view }),
        AcquireCall::WebLookup { .. } => outcome matches AcquireOutcome::LookedUp {
            found: Some(obj),
            ..
        } && rel == (ReleaseCall::WebDropCanvas { obj }),
        AcquireCall::WebCloneCanvas { .. } => outcome matches AcquireOutcome::Cloned { obj } && rel
            == (ReleaseCall::WebDropCanvas { obj }),
        AcquireCall::WebCloneOffscreen { .. } => outcome matches AcquireOutcome::Cloned { obj }
            && rel == (ReleaseCall::WebDropOffscreen { obj }),
        AcquireCall::WaylandAdopt { .. } => false,
    }
}

/// Law: one acquire, one release.  A payload the protocol stores directly
/// is released under the same build by exactly the call that undoes its
/// acquire — so constructing and then destroying a handle performs one
/// acquire and one matching release, and release never fails on what
/// acquire accepted.  A tracked Wayland surface is acquired and released
/// with no platform call at all: dropping the tracked reference is the
/// release.
pub proof fn lemma_acquire_release_paired(
    raw: RawWindow,
    caps: TargetCaps,
    outcome: AcquireOutcome,
)
    requires
        raw.wf(),
        acquire_action_spec(raw, caps) matches Ok(call) && outcome_matches(call, outcome),
    ensures
        inc_spec(raw, caps, outcome) matches Ok(imp) ==> match imp {
            Impl::Direct { raw: stored } => release_action_spec(stored, caps) matches Ok(rel)
                && undoes(acquire_action_spec(raw, caps)->Ok_0, outcome, rel),
            Impl::Wayland { .. } => acquire_action_spec(raw, caps)->Ok_0 is WaylandAdopt,
        },
{
}

/// Law: acquire and release refuse exactly the same directly stored
/// payloads, with the same error.  In particular a handle for a platform
/// compiled out of the build fails both with a platform mismatch naming
/// the identical expected platform.
pub proof fn lemma_mismatch_symmetric(raw: RawWindow, caps: TargetCaps)
    requires
        !(raw is Wayland),
        !(raw is Web),
    ensures
        acquire_action_spec(raw, caps) is Err <==> release_action_spec(raw, caps) is Err,
        acquire_action_spec(raw, caps) matches Err(e) ==> release_action_spec(raw, caps)
            == Err::<ReleaseCall, Error>(e),
{
}

} // verus!
