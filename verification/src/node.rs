//! The render-graph node's state: when the compute pipelines are ready and,
//! once they are, which compute passes a frame encodes and at what sizes.

use vstd::prelude::*;
use crate::params::NR_PARTICLES;
use crate::params::SCREEN_HEIGHT;
use crate::params::SCREEN_WIDTH;
use crate::params::TILE_DIM;
use crate::params::WORKGROUP_SIZE;
use crate::dispatch::image_dispatch;
use crate::dispatch::update_dispatch;

verus! {

/// One of the demo's compute passes.
#[derive(Clone, Copy, PartialEq, Eq, Structural, Debug)]
pub enum Pass {
    /// Advance every particle along the flow field.
    Update,
    /// Zero the per-pixel energy accumulator.
    Clear,
    /// Rasterize the particles into the output image.
    Draw,
}

/// One compute dispatch: a pass and its workgroup grid.
#[derive(Clone, Copy, PartialEq, Eq, Structural, Debug)]
pub struct Dispatch {
    pub pass: Pass,
    pub x: u32,
    pub y: u32,
    pub z: u32,
}

/// The passes a frame encodes once the node is ready, in order: update the
/// particles, clear the image-sized accumulator, draw the particles into it.
/// A frame before readiness encodes nothing.
pub open spec fn frame_plan_spec(ready: bool) -> Seq<Dispatch> {
    if ready {
        seq![
            Dispatch {
                pass: Pass::Update,
                x: (NR_PARTICLES / WORKGROUP_SIZE) as u32,
                y: 1,
                z: 1,
            },
            Dispatch {
                pass: Pass::Clear,
                x: (SCREEN_WIDTH / TILE_DIM) as u32,
                y: (SCREEN_HEIGHT / TILE_DIM) as u32,
                z: 1,
            },
            Dispatch {
                pass: Pass::Draw,
                x: (SCREEN_WIDTH / TILE_DIM) as u32,
                y: (SCREEN_HEIGHT / TILE_DIM) as u32,
                z: 1,
            },
        ]
    } else {
        Seq::empty()
    }
}

/// State of the compute render-graph node. The node sits out every frame
/// until the host's pipeline cache has compiled the shaders; `ready`
/// records that it has seen that happen.
pub struct ComputeNode {
    pub ready: bool,
}

impl ComputeNode {
    /// A fresh node, not yet ready.
    pub fn new() -> (node: ComputeNode)
        ensures
            !node.ready,
    {
        ComputeNode { ready: false }
    }

    /// Folds one per-frame poll of the pipeline cache into the state:
    /// the node becomes ready when the update and draw pipelines have both
    /// been seen compiled, and once ready it stays ready.
    pub fn update(&mut self, update_ok: bool, draw_ok: bool)
        ensures
            final(self).ready == (old(self).ready || (update_ok && draw_ok)),
    {
        if !self.ready {
            if update_ok {
                if draw_ok {
                    self.ready = true;
                }
            }
        }
    }

    /// The compute passes this frame must encode, in order.
    pub fn frame_plan(&self) -> (plan: Vec<Dispatch>)
        ensures
            plan@ == frame_plan_spec(self.ready),
    {
        let mut plan: Vec<Dispatch> = Vec::new();
        if self.ready {
            let update_groups = update_dispatch();
            let (tile_cols, tile_rows) = image_dispatch();
            plan.push(Dispatch { pass: Pass::Update, x: update_groups, y: 1, z: 1 });
            plan.push(Dispatch { pass: Pass::Clear, x: tile_cols, y: tile_rows, z: 1 });
            plan.push(Dispatch { pass: Pass::Draw, x: tile_cols, y: tile_rows, z: 1 });
        }
        proof {
            assert(plan@ =~= frame_plan_spec(self.ready));
        }
        plan
    }
}

impl Default for ComputeNode {
    /// A fresh node, not yet ready.
    fn default() -> (node: ComputeNode)
        ensures
            !node.ready,
    {
        ComputeNode::new()
    }
}

} // verus!
