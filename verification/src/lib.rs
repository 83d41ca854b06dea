//! Control core of an interactive 3D scene viewer.
//!
//! Once per rendered frame the host hands this crate the state of its input
//! devices, the pointer motion buffered since the previous frame and the time
//! that has passed, and receives what to do: cursor commands for the window
//! and transform operations for the camera and the animated entities. The
//! crate holds no floating point: every quantity is an exact fixed-point
//! count, and the host converts at its boundary.

pub mod units;
pub mod transform;
pub mod input;
pub mod gesture;
pub mod cursor;
pub mod animate;
pub mod scene;
