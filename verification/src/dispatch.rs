//! Workgroup dispatch sizing for the three compute passes, and the
//! frame-parity choice of source and destination buffers.

use vstd::prelude::*;
use crate::params::NR_PARTICLES;
use crate::params::SCREEN_HEIGHT;
use crate::params::SCREEN_WIDTH;
use crate::params::TILE_DIM;
use crate::params::WORKGROUP_SIZE;

verus! {

/// Number of workgroups that covers `items` invocations with groups of
/// `group_size`: the quotient, so every whole group of items gets one
/// workgroup and a final partial group, if any, gets none.
pub fn dispatch_count(items: u32, group_size: u32) -> (groups: u32)
    requires
        group_size > 0,
    ensures
        groups == items / group_size,
        groups * group_size <= items,
        items - group_size < groups * group_size,
{
    proof {
        vstd::arithmetic::div_mod::lemma_remainder_lower(items as int, group_size as int);
        vstd::arithmetic::div_mod::lemma_remainder_upper(items as int, group_size as int);
    }
    items / group_size
}

/// Workgroup count of the particle update pass. The particle count is a
/// multiple of the workgroup size, so the dispatch covers every particle
/// exactly once.
pub fn update_dispatch() -> (groups: u32)
    ensures
        groups == NR_PARTICLES / WORKGROUP_SIZE,
        groups * WORKGROUP_SIZE == NR_PARTICLES,
{
    dispatch_count(NR_PARTICLES, WORKGROUP_SIZE)
}

/// Workgroup counts `(x, y)` of the image-wide clear and draw passes: one
/// workgroup per square tile. The screen dimensions are multiples of the
/// tile side, so the tiles cover the image exactly.
pub fn image_dispatch() -> (groups: (u32, u32))
    ensures
        groups.0 == SCREEN_WIDTH / TILE_DIM,
        groups.1 == SCREEN_HEIGHT / TILE_DIM,
        groups.0 * TILE_DIM == SCREEN_WIDTH,
        groups.1 * TILE_DIM == SCREEN_HEIGHT,
{
    (dispatch_count(SCREEN_WIDTH, TILE_DIM), dispatch_count(SCREEN_HEIGHT, TILE_DIM))
}

/// Which of two ping-ponged buffers a frame reads (`.0`) and which it
/// writes (`.1`), alternating by frame parity. The two indices always
/// differ, so no dispatch reads and writes the same buffer.
pub fn ping_pong_indices(frame: u32) -> (io: (u32, u32))
    ensures
        frame % 2 == 0 ==> io == (0u32, 1u32),
        frame % 2 == 1 ==> io == (1u32, 0u32),
        io.0 != io.1,
        io.0 < 2 && io.1 < 2,
{
    if frame % 2 == 0 {
        (0, 1)
    } else {
        (1, 0)
    }
}

} // verus!
