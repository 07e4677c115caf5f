//! A minimal real-time instanced renderer's verified core.
//!
//! The crate manages the lifecycle of a scene of static-mesh instances under
//! a free-fly camera: per-object geometry and append-only instance
//! transforms, the uniform block carrying the view-projection matrix, the
//! controller state machine behind the camera, and the render-pipeline
//! bookkeeping that keeps buffers, bind-group ranges and draw calls
//! consistent with each other frame after frame.
//!
//! Everything the GPU and the floating-point math contribute is handled at
//! the boundary: numeric payloads are carried as IEEE 754 bit patterns,
//! serialized here into the exact byte images the buffers hold, while a
//! thin host shell owns the device and performs the frame plans this crate
//! produces.

pub mod camera;
pub mod instance;
pub mod object;
pub mod state;
pub mod uniforms;
pub mod vector2;
pub mod words;
