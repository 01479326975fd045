//! Decision logic of a free-fly camera controller.
//!
//! Each frame the host hands the controller which movement keys are held and
//! whether the look button is down. The controller answers with a plan for the
//! frame: whether to seed yaw and pitch from the camera's current orientation,
//! which way to move, whether to integrate motion and mouse-look, and how the
//! cursor lock must change. The numeric integration of that plan belongs to
//! the host.

pub mod controller;
pub mod movement;
pub mod scene;
