//! Integer core of a Monte Carlo path tracer: the 8-bit pixel buffer, its
//! plain-text image encoding, the split of a per-pixel sample budget over
//! worker threads, and the checkerboard parity rule of textures.

pub mod screen;
pub mod workload;
pub mod ppm;
pub mod bvh;
pub mod checker;
