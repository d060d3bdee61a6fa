//! Fixed geometry of the demo: screen size, workgroup sizes, particle count,
//! and the sizes of the GPU storage buffers derived from them.

use vstd::prelude::*;

verus! {

/// Width of the output image, in pixels.
pub const SCREEN_WIDTH: u32 = 1280;

/// Height of the output image, in pixels.
pub const SCREEN_HEIGHT: u32 = 720;

/// Number of shader invocations in one workgroup of the particle update pass.
pub const WORKGROUP_SIZE: u32 = 256;

/// Total number of particles; a whole number of update workgroups.
pub const NR_PARTICLES: u32 = WORKGROUP_SIZE * 128;

/// Side length of the square tile handled by one workgroup of the
/// image-wide clear and draw passes.
pub const TILE_DIM: u32 = 16;

/// Bytes of one cell of the per-pixel energy accumulator buffer.
pub const ENERGY_CELL_BYTES: u32 = 4;

/// Bytes of one texel of the output image: four channels of four bytes each.
pub const TEXEL_BYTES: u32 = 16;

/// Number of pixels in the output image, as the shaders receive it.
pub fn pixel_count() -> (n: u32)
    ensures
        n == SCREEN_WIDTH * SCREEN_HEIGHT,
{
    SCREEN_WIDTH * SCREEN_HEIGHT
}

/// Size in bytes of the per-pixel energy accumulator buffer: one cell
/// for each pixel of the output image.
pub fn energy_buffer_bytes() -> (bytes: u64)
    ensures
        bytes == ENERGY_CELL_BYTES * SCREEN_WIDTH * SCREEN_HEIGHT,
{
    (ENERGY_CELL_BYTES * SCREEN_WIDTH * SCREEN_HEIGHT) as u64
}

/// The values the shader source is specialized with before compilation:
/// how many particles the update pass walks, how many cells the energy
/// buffer holds, and the row stride used to index it.
#[derive(Clone, Copy, PartialEq, Eq, Structural, Debug)]
pub struct ShaderParams {
    pub nr_particles: u32,
    pub nr_pixels: u32,
    pub screen_width: u32,
}

impl ShaderParams {
    /// The parameter set of this demo's shaders.
    pub fn new() -> (p: ShaderParams)
        ensures
            p.nr_particles == NR_PARTICLES,
            p.nr_pixels == SCREEN_WIDTH * SCREEN_HEIGHT,
            p.screen_width == SCREEN_WIDTH,
    {
        ShaderParams {
            nr_particles: NR_PARTICLES,
            nr_pixels: pixel_count(),
            screen_width: SCREEN_WIDTH,
        }
    }
}

} // verus!
