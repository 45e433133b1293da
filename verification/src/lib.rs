//! Device-epoch-tagged GPU images and the checks that decide whether an
//! application texture can be composited directly.

pub mod decimal;
pub mod epoch;
pub mod frame;
pub mod geometry;
pub mod gpu;
pub mod image_id;
pub mod validation;
pub mod wgpu_calls;
