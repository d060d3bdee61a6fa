//! Core parameters and CPU-side decisions for a GPU particle flow-field demo.
//!
//! The demo renders particles whose positions are updated by compute shaders
//! inside a host rendering engine. Everything the host engine does not own --
//! the screen and workgroup geometry, the shader parameters, the storage
//! buffer sizes, the per-frame pass plan, and the initial per-particle state
//! that is computed on the CPU -- lives here, with contracts.

mod dispatch;
mod node;
mod params;
mod particles;

pub use dispatch::dispatch_count;
pub use dispatch::image_dispatch;
pub use dispatch::ping_pong_indices;
pub use dispatch::update_dispatch;
pub use node::ComputeNode;
pub use node::Dispatch;
pub use node::Pass;
pub use node::frame_plan_spec;
pub use params::ENERGY_CELL_BYTES;
pub use params::NR_PARTICLES;
pub use params::SCREEN_HEIGHT;
pub use params::SCREEN_WIDTH;
pub use params::ShaderParams;
pub use params::TEXEL_BYTES;
pub use params::TILE_DIM;
pub use params::WORKGROUP_SIZE;
pub use params::energy_buffer_bytes;
pub use params::pixel_count;
pub use particles::initial_seeds;
pub use particles::zero_texel;
