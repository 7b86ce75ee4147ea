//! Core of a Monte-Carlo path tracer: scene configuration, the per-pixel
//! sample buffer, stratified-sample bookkeeping, texture index arithmetic,
//! and the PPM raster encoding.  Geometry and radiance run on IEEE floats
//! and live with the drivers; everything here is verified.

pub mod buffer;
pub mod common;
pub mod config;
pub mod ppm;
pub mod sampling;
pub mod texture;
