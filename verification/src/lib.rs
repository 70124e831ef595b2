//! Verified core of a Monte-Carlo path tracer.
//!
//! The renderer's numeric work runs on `f64` vectors and colors, which the
//! verifier does not model; that part lives in the surrounding driver. What
//! is verified here is everything the renderer decides and stores in plain
//! integer values: the output raster and its row-major addressing, the
//! 8-bit quantization of accumulated colors, image-texture sampling with
//! its clamping and decode-failure sentinel, the nearest-hit selection
//! rules over totally ordered distance keys, and the bounce-depth control
//! of the radiance estimator.

pub mod color;
pub mod hits;
pub mod raster;
pub mod render;
pub mod texture;
pub mod trace;
