//! Verified core of the laser refraction renderer: the integer and text
//! logic behind its GPU buffers, shader structs, viewports and read-outs.

pub mod align;
pub mod buffers;
pub mod controls;
pub mod frames;
pub mod texture;
pub mod units;
pub mod viewport;
pub mod wgsl;
