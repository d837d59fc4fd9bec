//! How overlays treat the layers behind them, and which of them owns input.

use vstd::prelude::*;

use crate::focus::{FocusRegistry, FocusView};

verus! {

/// How an overlay treats the already-rendered layers behind it.
#[derive(Clone, Copy, Debug, PartialEq, Eq, Structural)]
pub enum Backdrop {
    /// Leave the layers behind the overlay unchanged.
    Unchanged,
    /// Add the terminal's dim modifier to the layers behind the overlay.
    Dim,
}

impl Default for Backdrop {
    fn default() -> (b: Self)
        ensures
            b == Backdrop::Unchanged,
    {
        Backdrop::Unchanged
    }
}

/// The input owner a scene hands to the focus registry: the owner of its
/// topmost overlay, when there are overlays and that one has an owner.
pub open spec fn topmost_owner(owners: Seq<Option<&str>>) -> Option<Seq<char>> {
    if owners.len() == 0 {
        None
    } else {
        match owners.last() {
            Some(id) => Some(id@),
            None => None,
        }
    }
}

/// Synchronize exclusive input ownership with the topmost overlay of a
/// scene whose overlays, bottom to top, have the owners `owners`: the
/// topmost overlay's owner takes the input, and a scene whose topmost
/// overlay has no owner (or that has no overlay) releases it. Call this
/// after building the frame's scene.
pub fn sync_focus(owners: &[Option<&str>], focus: &mut FocusRegistry)
    ensures
        final(focus)@ == (FocusView { owner: topmost_owner(owners@), ..old(focus)@ }),
{
    let n = owners.len();
    if n > 0 {
        if let Some(id) = owners[n - 1] {
            focus.set_owner(id);
            return;
        }
    }
    focus.clear_owner();
}

} // verus!
