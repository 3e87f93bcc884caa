//! The per-frame keyboard snapshot the systems read.

use vstd::prelude::*;

verus! {

/// Which of the three driving keys are held this frame. The host engine
/// fills one of these in at the start of every frame.
#[derive(Clone, Copy, PartialEq, Eq, Structural)]
pub struct KeyState {
    /// Turn-left key held.
    pub left: bool,
    /// Turn-right key held.
    pub right: bool,
    /// Forward key held.
    pub up: bool,
}

} // verus!
