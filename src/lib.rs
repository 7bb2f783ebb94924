//! Input-to-gesture logic of a pan/orbit/zoom camera controller.
//!
//! The controller keeps a focus point, an orbit radius and an
//! "upside-down" flag per camera. Each frame it receives the input gathered
//! since the previous frame and decides which single gesture, if any, takes
//! effect. This crate holds those decisions and the flag's update rule; the
//! numeric work of a gesture (rotations, offsets, the zoom step) is carried
//! out by the host engine following the returned [`Action`].

pub mod controller;
pub mod gesture;

pub use controller::OrbitControl;
pub use gesture::{select_action, Action, FrameInput};
