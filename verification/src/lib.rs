//! Silhouette-mask generation for outlined meshes.
//!
//! The crate decides, in verified code, how a mesh pipeline is reshaped for
//! mask rendering and which commands a mask pass consists of. The caller owns
//! the GPU objects and identifies them to this crate by integer handles.

pub mod key;
pub mod config;
pub mod pipeline;
pub mod node;
