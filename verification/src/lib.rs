//! Take ownership of borrowed platform window handles.
//!
//! A windowing library hands out borrowed, short-lived window handles.  This
//! crate turns such a handle into a value that can be held independently,
//! cloned, and released safely, with platform-specific meanings for
//! "acquire" and "release": numeric identifiers need no bookkeeping, Apple
//! views take retain/release messages, Android native windows take native
//! refcount calls, Wayland surfaces are tracked through the owning client
//! backend, and web canvases live as ABI-transferred object references.
//!
//! The crate verifies the ownership protocol itself.  Platform calls are
//! impure and target-specific, so the protocol speaks of them as data: it
//! tells the embedding program which call to make, and consumes the call's
//! outcome.  Every decision between those two points is proved.

pub mod digits;
pub mod error;
pub mod owned;
pub mod protocol;
pub mod raw;
pub mod wayland;
pub mod web;

pub use digits::u32_dec;
pub use error::{Error, ErrorKind, Platform};
pub use owned::OwnedWindowHandle;
pub use protocol::{
    acquire_action, dec_refcount, inc_refcount, AcquireCall, AcquireOutcome, Impl, ReleaseCall,
};
pub use raw::{RawWindow, TargetCaps};
pub use wayland::{BackendRef, BackendReport, WaylandHandle};
pub use web::selector;
