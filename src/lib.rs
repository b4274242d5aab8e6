//! Pixel-art upscaling: size resolution, shader pass size chains, alpha plane
//! handling, and dispatch to fixed-factor magnification algorithms.

pub mod text;
pub mod numbers;
pub mod geometry;
pub mod shader_chain;
pub mod raster;
pub mod alpha;
pub mod codec;
pub mod backends;
pub mod resize;
pub mod catalog;
pub mod pipeline;

