//! Resolution of web canvas handles.
//!
//! On the web a handle is either an opaque element id or an ABI-transferred
//! DOM object reference.  An id-only handle is resolved by querying the
//! document for a canvas tagged with the id through a data attribute; this
//! module pins down the selector for that query, character for character.
//! The lookup itself, and the cloning and dropping of DOM objects, are the
//! embedding program's to perform; the acquire/release protocol tells it
//! when.

use crate::digits::{dec_rep, u32_dec};
use vstd::prelude::*;

verus! {

/// The document query that resolves an id-only web handle: a canvas whose
/// `data-raw-handle` attribute carries the id in decimal.
pub open spec fn selector_spec(id: nat) -> Seq<char> {
    "canvas[data-raw-handle=\""@ + dec_rep(id) + "\"]"@
}

/// The selector with which the document must be queried for the canvas
/// tagged with `id`.
pub fn selector(id: u32) -> (r: String)
    ensures
        r@ == selector_spec(id as nat),
{
    let mut s: String = String::from_str("canvas[data-raw-handle=\"");
    let digits: String = u32_dec(id);
    s.append(digits.as_str());
    s.append("\"]");
    proof {
        assert(s@ =~= selector_spec(id as nat));
    }
    s
}

} // verus!
