//! A framebuffer surface for a freestanding kernel: a descriptor of the
//! buffer's geometry, byte encoders for each pixel layout, and a writer that
//! turns a coordinate and a colour into a bounds-checked store.

pub mod color;
pub mod info;
pub mod point;
pub mod pixelwriter;
pub mod framebuffer;
pub mod lifecycle;
