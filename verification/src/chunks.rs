//! The recycled ground chunks that scroll under the tank.

use vstd::prelude::*;

verus! {

use crate::input::KeyState;
use crate::utils::{calc_world_curve_path, world_curve};

/// Number of ground chunks the scene is built with.
pub const CHUNK_COUNT: usize = 4;

/// Lateral gap between neighbouring chunks at build time: 50 world units,
/// in tenths.
pub const CHUNK_SPACING: i64 = 500;

/// Lateral distance a chunk scrolls per frame: 0.3 world units, in tenths.
pub const SCROLL_STEP: i64 = 3;

/// Once a chunk's lateral position drops below -50 world units it is
/// recycled; the bound in tenths.
pub const WRAP_MIN: i64 = -500;

/// Lateral position a recycled chunk restarts from: 150 world units, in
/// tenths.
pub const WRAP_RESET: i64 = 1500;

/// One ground-plane segment: its lateral position in tenths of a world unit
/// and its height in thirty-thousandths, always the curve height at that
/// position.
#[derive(Clone, Copy, Debug, PartialEq, Eq, Structural)]
pub struct WorldChunk {
    /// Lateral position, in tenths of a world unit.
    pub lateral: i64,
    /// Height, in thirty-thousandths of a world unit.
    pub height: i64,
}

impl WorldChunk {
    /// A chunk sits between the recycling bound and the restart position,
    /// at the curve height for its lateral position.
    pub open spec fn wf(self) -> bool {
        &&& WRAP_MIN <= self.lateral <= WRAP_RESET
        &&& self.height == world_curve(self.lateral as int)
    }
}

/// A chunk's lateral position after one scroll tick: step towards the tank,
/// and restart from the far side once past the recycling bound.
pub open spec fn lateral_after_step(y: int) -> int {
    if y - SCROLL_STEP < WRAP_MIN {
        WRAP_RESET as int
    } else {
        y - SCROLL_STEP
    }
}

/// A chunk's lateral position after `n` scroll ticks.
pub open spec fn lateral_after_steps(y: int, n: nat) -> int
    decreases n,
{
    if n == 0 {
        y
    } else {
        lateral_after_step(lateral_after_steps(y, (n - 1) as nat))
    }
}

/// Scrolling never leaves the closed band [-50, 150] (in world units):
/// however many ticks a chunk takes, its lateral position stays between the
/// recycling bound and the restart position.
pub proof fn lemma_scroll_stays_in_band(y: int, n: nat)
    requires
        WRAP_MIN <= y <= WRAP_RESET,
    ensures
        WRAP_MIN <= lateral_after_steps(y, n) <= WRAP_RESET,
    decreases n,
{
    if n > 0 {
        lemma_scroll_stays_in_band(y, (n - 1) as nat);
    }
}

/// While no recycling fires, a scroll tick keeps a chunk within the
/// half-open band [-50, 150): a tick that does recycle lands exactly on the
/// restart position 150, which is why that case is left out here.
pub proof fn lemma_scroll_stays_below_reset(y: int)
    requires
        WRAP_MIN <= y < WRAP_RESET,
        y - SCROLL_STEP >= WRAP_MIN,
    ensures
        WRAP_MIN <= lateral_after_step(y) < WRAP_RESET,
{
}

/// Builds the initial ground: `CHUNK_COUNT` chunks spaced `CHUNK_SPACING`
/// apart starting at the origin, each already at its curve height.
pub fn build_ground_chunks() -> (chunks: Vec<WorldChunk>)
    ensures
        chunks@.len() == CHUNK_COUNT,
        forall|i: int|
            0 <= i < chunks@.len() ==> {
                &&& chunks@[i].lateral == CHUNK_SPACING * i
                &&& chunks@[i].wf()
            },
{
    let mut chunks: Vec<WorldChunk> = Vec::new();
    let mut i: usize = 0;
    while i < CHUNK_COUNT
        invariant
            i <= CHUNK_COUNT,
            chunks@.len() == i,
            forall|j: int|
                0 <= j < i ==> {
                    &&& chunks@[j].lateral == CHUNK_SPACING * j
                    &&& chunks@[j].wf()
                },
        decreases CHUNK_COUNT - i,
    {
        let y: i64 = CHUNK_SPACING * (i as i64);
        let height: i64 = calc_world_curve_path(y);
        chunks.push(WorldChunk { lateral: y, height });
        i = i + 1;
    }
    chunks
}

/// One frame of the ground scroller: while the forward key is held, every
/// chunk steps towards the tank, is recycled to the restart position once
/// past the recycling bound, and takes the curve height at its new lateral
/// position. Without the forward key the chunks are untouched.
pub fn update_ground_chunks(chunks: &mut Vec<WorldChunk>, keys: KeyState)
    requires
        forall|i: int| 0 <= i < old(chunks)@.len() ==> old(chunks)@[i].wf(),
    ensures
        final(chunks)@.len() == old(chunks)@.len(),
        !keys.up ==> final(chunks)@ == old(chunks)@,
        keys.up ==> forall|i: int|
            0 <= i < old(chunks)@.len() ==> {
                &&& final(chunks)@[i].lateral == lateral_after_step(old(chunks)@[i].lateral as int)
                &&& final(chunks)@[i].height == world_curve(final(chunks)@[i].lateral as int)
            },
        forall|i: int| 0 <= i < final(chunks)@.len() ==> final(chunks)@[i].wf(),
{
    if !keys.up {
        return;
    }
    let n: usize = chunks.len();
    let mut i: usize = 0;
    while i < n
        invariant
            i <= n,
            chunks@.len() == n,
            old(chunks)@.len() == n,
            forall|j: int| i <= j < n ==> chunks@[j] == old(chunks)@[j],
            forall|j: int| 0 <= j < n ==> old(chunks)@[j].wf(),
            forall|j: int|
                0 <= j < i ==> {
                    &&& chunks@[j].lateral == lateral_after_step(old(chunks)@[j].lateral as int)
                    &&& chunks@[j].wf()
                },
        decreases n - i,
    {
        let mut y: i64 = chunks[i].lateral;
        y = y - SCROLL_STEP;
        if y < WRAP_MIN {
            y = WRAP_RESET;
        }
        let height: i64 = calc_world_curve_path(y);
        chunks[i] = WorldChunk { lateral: y, height };
        i = i + 1;
    }
}

} // verus!
