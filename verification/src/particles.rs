//! The CPU-side part of the initial GPU state: the per-particle seeds and
//! the fill pattern of the freshly allocated output image. Positions and
//! velocities are drawn at random as the host uploads the buffer; the seed
//! of each particle is its own index.

use vstd::prelude::*;
use crate::params::TEXEL_BYTES;

verus! {

/// The seed of each of `count` particles: particle `i` is seeded with `i`,
/// so every particle perturbs the flow field differently.
pub fn initial_seeds(count: u32) -> (seeds: Vec<u32>)
    ensures
        seeds@.len() == count,
        forall|i: int| 0 <= i < seeds@.len() ==> seeds@[i] as int == i,
{
    let mut seeds: Vec<u32> = Vec::new();
    let mut i: u32 = 0;
    while i < count
        invariant
            i <= count,
            seeds@.len() == i,
            forall|j: int| 0 <= j < seeds@.len() ==> seeds@[j] as int == j,
        decreases count - i,
    {
        seeds.push(i);
        i = i + 1;
    }
    seeds
}

/// The byte pattern one texel of the output image is filled with at
/// startup: four zeroed four-byte channels, a transparent black pixel.
pub fn zero_texel() -> (bytes: Vec<u8>)
    ensures
        bytes@.len() == TEXEL_BYTES,
        forall|i: int| 0 <= i < bytes@.len() ==> bytes@[i] == 0,
{
    let mut bytes: Vec<u8> = Vec::new();
    let mut i: u32 = 0;
    while i < TEXEL_BYTES
        invariant
            i <= TEXEL_BYTES,
            bytes@.len() == i,
            forall|j: int| 0 <= j < bytes@.len() ==> bytes@[j] == 0,
        decreases TEXEL_BYTES - i,
    {
        bytes.push(0);
        i = i + 1;
    }
    bytes
}

} // verus!
