//! The DOOM framebuffer snapshot: the deterministic host that drives `doom.wasm`,
//! the tick schedule, and the conversion of the captured `B,G,R,A` framebuffer
//! into the compared P6 PPM and the PNG kept for human inspection.

pub mod frame;
pub mod host;
pub mod png_image;
pub mod ppm;
pub mod schedule;
pub mod snapshot;
