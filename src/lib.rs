//! A door that is opened and shut by dragging the pointer.
//!
//! A press-and-drag gesture is turned into at most one command per hold
//! (`gesture`), the command moves the door about its hinge (`door`), and a
//! one-way latch records when the door has swung far enough (`goal`).
//! `controller` runs the three in order, once per frame.

pub mod controller;
pub mod door;
pub mod gesture;
pub mod goal;
