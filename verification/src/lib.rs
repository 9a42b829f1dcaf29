//! Depth-to-color registration for a rig with a 512x424 depth sensor and a
//! 1920x1080 color sensor, together with the state rules of the device layer
//! that feeds it.
//!
//! Depth samples and color coordinates are single-precision values. This
//! crate carries each of them as its IEEE-754 bit pattern in a `u32` and
//! never does arithmetic on one: the calibration polynomials are evaluated by
//! the caller, who hands over integer pixel positions.

mod cast;
pub mod context;
pub mod depth;
pub mod device;
pub mod frame;
pub mod grid;
pub mod laws;
pub mod remap;
pub mod transformer;
