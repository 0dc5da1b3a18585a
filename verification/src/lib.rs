//! A live-reloading, multi-pass compute-shader renderer core.
//!
//! The crate holds the decisions of the renderer: the shader prelude and
//! compile step, the two-generation pipeline set, the per-frame plan, the
//! uniform byte layouts and the descriptors of every GPU resource. A host
//! owns the device, the shader parser and the image decoders; it performs
//! what the plans describe and hands the results back.

pub mod channel;
pub mod errors;
pub mod frame;
pub mod keys;
pub mod layout;
pub mod pipeline;
pub mod renderer;
pub mod resources;
pub mod shader;
pub mod uniforms;

pub use renderer::WgpuToyRenderer;
