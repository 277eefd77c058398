//! Integer core of a small ray tracer: image dimensions, pixel order, and the
//! plain-text raster that the renderer emits.

pub mod camera;
pub mod ppm;
