//! Runtime core of a real-time deferred renderer: frame orchestration and
//! GPU resource lifetime.
//!
//! The library models every GPU-side object as a plain value — handles are
//! integers, image layouts are a tracked enum, command buffers are recorded
//! command sequences — and proves the structural invariants of the design:
//! staged uploads preserve their bytes, allocations are released exactly
//! once, a slot's command pool is reset only behind a signalled fence, and
//! the lighting-composite pass sees every producer attachment in the exact
//! layout its producer left it in.  An embedder executes the recorded
//! commands and sync decisions against the real graphics API.

pub mod allocator;
pub mod buffer;
pub mod buffer_manager;
pub mod byte_encoding;
pub mod command_buffer;
pub mod command_buffer_helpers;
pub mod deferred_lightning_render_pass;
pub mod deferred_render_pass;
pub mod draw_data;
pub mod frame_worker;
pub mod gpu_types;
pub mod image;
pub mod matrix_bits;
pub mod mesh;
pub mod pipeline_manager;
pub mod push_constants_data;
pub mod render_pass_attachment_output;
pub mod shadow_map_render_pass;
pub mod vertex;
