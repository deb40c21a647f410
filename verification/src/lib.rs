//! Retained-mode 2D UI layout and render-instance generation.
//!
//! Given a tree of styled elements and a display size, the library resolves
//! each element's on-screen box, encodes it as a GPU-ready instance record,
//! and plans the buffer writes that keep those records in sync frame to frame.
//! All geometry is carried in fixed-point micro-pixel units so that every
//! computation has an exact, machine-checked meaning.

pub mod canvas;
pub mod elements;
pub mod engine;
pub mod fixed;
pub mod instance;
pub mod layout;
pub mod resources;
pub mod style;
