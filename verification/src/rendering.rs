//! The GPU-facing half of the engine: surface configuration, buffers,
//! bind groups, shaders, pipelines, and render-pass command recording.

pub mod bind_group;
pub mod buffer;
pub mod canvas;
pub mod pipeline;
pub mod render_pass;
pub mod shader;
