//! The owned window handle value.
//!
//! An owned handle owns exactly one acquisition of its payload: exactly one
//! acquire was performed when it was constructed, and exactly one release
//! is owed when it is destroyed — never more, never less, however many
//! clones exist, because each clone performs its own independent acquire.
//! The embedding program performs the platform calls the protocol names and
//! ties the release to destruction of its wrapper; everything decided
//! between those calls is proved here.

use crate::error::{Error, ErrorKind};
use crate::protocol;
use crate::protocol::{
    acquire_action_spec, inc_spec, outcome_matches, release_action_spec, AcquireOutcome, Impl,
    ReleaseCall,
};
use crate::raw::{RawWindow, TargetCaps};
use crate::wayland;
use vstd::prelude::*;

verus! {

/// An owned equivalent of a window handle.
#[derive(Debug)]
pub struct OwnedWindowHandle {
    /// How the payload is held: directly, or tracked through a Wayland
    /// backend.
    pub imp: Impl,
    /// The build this handle was acquired under.  Acquire and release are
    /// target-dependent, and release safety depends on matching the acquire
    /// contract exactly, so the handle carries its build along.
    pub caps: TargetCaps,
}

impl OwnedWindowHandle {
    /// What construction establishes and every operation preserves: the
    /// stored payload is one that acquisition can have stored, and it is
    /// releasable under the handle's own build.
    pub open spec fn wf(self) -> bool {
        &&& self.imp.wf()
        &&& match self.imp {
            Impl::Direct { raw } => release_action_spec(raw, self.caps) is Ok,
            Impl::Wayland { .. } => self.caps.wayland,
        }
    }

    /// The outcome a clone consumes: a re-acquire of the stored payload for
    /// a directly held handle, nothing for a tracked Wayland surface.
    pub open spec fn clone_outcome_ok(self, outcome: AcquireOutcome) -> bool {
        match self.imp {
            Impl::Direct { raw } => acquire_action_spec(raw, self.caps) matches Ok(call)
                && outcome_matches(call, outcome),
            Impl::Wayland { .. } => outcome is Done,
        }
    }

    /// Create an owned handle from a raw one, consuming the outcome of the
    /// acquire call that [`crate::acquire_action`] named for it (`Done`
    /// where no call was named).
    ///
    /// Construction performs exactly one acquire.  It fails with a platform
    /// mismatch if the handle's platform is compiled out of the build, with
    /// `NotSupported` for a handle kind this library does not anticipate,
    /// and for Wayland with `WaylandNotEnabled` (no client backend in the
    /// build) or `WaylandNotRust` (the surface is not the backend's own).
    pub fn new(raw: RawWindow, caps: TargetCaps, outcome: AcquireOutcome) -> (r: Result<
        OwnedWindowHandle,
        Error,
    >)
        requires
            raw.wf(),
            acquire_action_spec(raw, caps) matches Ok(call) ==> outcome_matches(call, outcome),
        ensures
            r matches Ok(h) ==> h.wf() && h.caps == caps && Ok::<Impl, Error>(h.imp) == inc_spec(
                raw,
                caps,
                outcome,
            ),
            r matches Err(e) ==> inc_spec(raw, caps, outcome) == Err::<Impl, Error>(e),
    {
        match protocol::inc_refcount(raw, caps, outcome) {
            Ok(imp) => {
                proof {
                    protocol::lemma_acquire_release_paired(raw, caps, outcome);
                }
                Ok(OwnedWindowHandle { imp, caps })
            },
            Err(e) => Err(e),
        }
    }

    /// Clone this handle, consuming the outcome of the re-acquire call its
    /// payload takes (`Done` where none is taken).
    ///
    /// A directly held payload is re-acquired exactly as construction
    /// acquired it; a tracked Wayland surface is cloned by duplicating the
    /// backend reference and id, with no platform call.  Either way the
    /// clone owns its own acquisition: dropping either handle leaves the
    /// other releasable.
    pub fn try_clone(&self, outcome: AcquireOutcome) -> (r: Result<OwnedWindowHandle, Error>)
        requires
            self.wf(),
            self.clone_outcome_ok(outcome),
        ensures
            r matches Ok(c) ==> c.wf() && c.caps == self.caps,
            self.imp matches Impl::Wayland { handle } ==> r == Ok::<OwnedWindowHandle, Error>(
                (OwnedWindowHandle { imp: (Impl::Wayland { handle }), caps: self.caps }),
            ),
            self.imp matches Impl::Direct { raw } ==> match r {
                Ok(c) => Ok::<Impl, Error>(c.imp) == inc_spec(raw, self.caps, outcome),
                Err(e) => inc_spec(raw, self.caps, outcome) == Err::<Impl, Error>(e),
            },
    {
        match &self.imp {
            Impl::Direct { raw } => match protocol::inc_refcount(*raw, self.caps, outcome) {
                Ok(imp) => {
                    proof {
                        protocol::lemma_acquire_release_paired(*raw, self.caps, outcome);
                    }
                    Ok(OwnedWindowHandle { imp, caps: self.caps })
                },
                Err(e) => Err(e),
            },
            Impl::Wayland { handle } => Ok(
                OwnedWindowHandle { imp: Impl::Wayland { handle: *handle }, caps: self.caps },
            ),
        }
    }

    /// Borrow the handle: a transient view of the payload, valid only for
    /// the call's scope.
    ///
    /// For a directly held payload the view is identical to what was
    /// originally acquired.  For a tracked Wayland surface,
    /// `current_surface` is the proxy address the backend reports for the
    /// tracked id now — zero once the object has been destroyed, in which
    /// case borrowing fails with `Unavailable`; it is ignored for any other
    /// payload.
    pub fn window_handle(&self, current_surface: usize) -> (r: Result<RawWindow, Error>)
        requires
            self.wf(),
        ensures
            self.imp matches Impl::Direct { raw } ==> r == Ok::<RawWindow, Error>(raw),
            self.imp is Wayland ==> {
                &&& current_surface != 0 ==> r == Ok::<RawWindow, Error>(
                    (RawWindow::Wayland { surface: current_surface }),
                )
                &&& current_surface == 0 ==> r == Err::<RawWindow, Error>(
                    Error(ErrorKind::Unavailable),
                )
            },
    {
        match &self.imp {
            Impl::Direct { raw } => Ok(*raw),
            Impl::Wayland { handle } => wayland::as_ptr(handle, current_surface),
        }
    }

    /// Consume the handle and name the release call owed for it — exactly
    /// the one that undoes the handle's acquire, exactly once.
    ///
    /// On a well-formed handle release never fails: the refusals the
    /// release table holds for compiled-out platforms cannot be reached
    /// through a handle that construction accepted.  A tracked Wayland
    /// surface owes no call; dropping the backend reference is its release.
    pub fn release(self) -> (r: Result<ReleaseCall, Error>)
        requires
            self.wf(),
        ensures
            r is Ok,
            self.imp matches Impl::Direct { raw } ==> r == release_action_spec(raw, self.caps),
            self.imp is Wayland ==> r == Ok::<ReleaseCall, Error>(ReleaseCall::NoOp),
    {
        match self.imp {
            Impl::Direct { raw } => protocol::dec_refcount(raw, self.caps),
            Impl::Wayland { .. } => Ok(ReleaseCall::NoOp),
        }
    }
}

/// Law: every handle accepted by construction can be cloned.  For any
/// well-formed handle, the re-acquire call its payload takes is defined,
/// and with any matching outcome in which the platform did not return nil
/// from a retain message, the clone succeeds and is independently
/// destructible: its own payload is again releasable under the same build.
pub proof fn lemma_clone_succeeds(h: OwnedWindowHandle, outcome: AcquireOutcome)
    requires
        h.wf(),
        h.clone_outcome_ok(outcome),
        outcome matches AcquireOutcome::Retained { view } ==> view != 0,
    ensures
        h.imp matches Impl::Direct { raw } ==> inc_spec(raw, h.caps, outcome) matches Ok(imp2)
            && imp2.wf() && (imp2 matches Impl::Direct { raw: stored } && release_action_spec(
            stored,
            h.caps,
        ) is Ok),
{
    if let Impl::Direct { raw } = h.imp {
        protocol::lemma_acquire_release_paired(raw, h.caps, outcome);
    }
}

/// Law: a well-formed handle always has its re-acquire defined — the same
/// checks that admitted the payload at construction admit it again.
pub proof fn lemma_clone_ready(h: OwnedWindowHandle)
    requires
        h.wf(),
    ensures
        h.imp matches Impl::Direct { raw } ==> acquire_action_spec(raw, h.caps) is Ok,
{
}

} // verus!
