//! OSC 22 mouse pointer shapes.
//!
//! The sequence changes the shape of the terminal's own mouse pointer, which
//! lives outside the cell grid. Interactive regions use it to signal that
//! something under the pointer is clickable.

use vstd::prelude::*;

verus! {

/// Mouse pointer shapes used by interactive terminal regions.
///
/// These are CSS cursor names, understood through OSC 22 by terminals that
/// support it; other terminals ignore the sequence.
#[derive(Clone, Copy, Debug, PartialEq, Eq, Structural)]
pub enum PointerShape {
    /// Restore the terminal's configured pointer.
    Default,
    /// Show the pointing-hand cursor used for links.
    Pointer,
}

impl Default for PointerShape {
    fn default() -> (s: Self)
        ensures
            s == PointerShape::Default,
    {
        PointerShape::Default
    }
}

/// The OSC 22 sequence for `shape`: `ESC ] 22 ; <name> ESC \`.
pub open spec fn pointer_sequence(shape: PointerShape) -> Seq<char> {
    let name = match shape {
        PointerShape::Default => seq!['d', 'e', 'f', 'a', 'u', 'l', 't'],
        PointerShape::Pointer => seq!['p', 'o', 'i', 'n', 't', 'e', 'r'],
    };
    seq!['\x1b', ']', '2', '2', ';'] + name + seq!['\x1b', '\\']
}

/// Encode an OSC 22 pointer-shape sequence. Pure: no I/O.
pub fn encode(shape: PointerShape) -> (r: &'static str)
    ensures
        r@ == pointer_sequence(shape),
{
    match shape {
        PointerShape::Default => {
            let s = "\x1b]22;default\x1b\\";
            proof {
                reveal_strlit("\x1b]22;default\x1b\\");
                assert(s@ =~= pointer_sequence(shape));
            }
            s
        },
        PointerShape::Pointer => {
            let s = "\x1b]22;pointer\x1b\\";
            proof {
                reveal_strlit("\x1b]22;pointer\x1b\\");
                assert(s@ =~= pointer_sequence(shape));
            }
            s
        },
    }
}

} // verus!
