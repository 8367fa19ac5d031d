//! Scan-line spectrum explorer: the verified core of a visualizer that walks
//! an image row by row, transforms each row's intensities into the frequency
//! domain, attenuates the high coefficients, and composites source image,
//! spectrum bar charts and reconstructed row into one raster buffer.
//!
//! The floating-point transform itself is performed outside this library; the
//! library owns the integer logic: packed-color encoding, the raster buffer
//! with its silent-clipping policy, the image grid model, signal extraction
//! and row write-back, and the bar-chart renderers.

pub mod color;
pub mod frame;
pub mod grid;
pub mod indexing;
pub mod raster;
pub mod render;
pub mod scan;

pub use color::Rgb;
