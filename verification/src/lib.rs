//! The integer side of an escape-time fractal viewer: the exact map from
//! pixels to the plane, the control of the bounded iteration, the narrowing
//! of colour channels, and the decisions of the frame driver.

pub mod color;
pub mod escape;
pub mod frame;
pub mod viewport;
