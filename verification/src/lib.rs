//! Verified core of a small OpenGL scene renderer with render-to-texture portals.
//!
//! The crate holds the decisions that a renderer makes before it talks to the
//! graphics driver: which keys move the camera, how vertex data is laid out,
//! which sampler uniform each texture is bound to, which image files are
//! handed to the decoder and which image layouts can be uploaded, and in
//! which order a frame with portals is rendered. Everything
//! is stated over plain values, so that the code which owns the window and the
//! graphics context only has to carry the results out.

pub mod draw;
pub mod jpeg;
pub mod key_state;
pub mod lights;
pub mod mesh;
pub mod model;
pub mod plane;
pub mod portal;
pub mod shader_program;
pub mod texture;
pub mod utils;
pub mod vertex_objects;
