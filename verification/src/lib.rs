//! A minimal real-time rendering harness, modelled and verified.
//!
//! The library covers the render-thread command pipeline: GPU-side resource
//! creation (mesh, index buffer, texture, sampler, shader program), the
//! per-frame submission protocol (clear, draw, end-frame, error drain), the
//! bounded command channel between the event thread and the render thread,
//! and the cooperative shutdown handshake. Window creation and input polling
//! are external collaborators; `app/` holds that glue.

pub mod channel;
pub mod device;
pub mod events;
pub mod geom;
pub mod pixel;
pub mod program;
pub mod render;
pub mod renderer;
pub mod sampler;
pub mod texture;
