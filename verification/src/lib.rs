//! The decision core of a free-fly camera for a Bevy application.
//!
//! Each frame the controller looks at the keyboard state and at the window's
//! cursor options, flips the cursor lock when the lock key went down, and
//! lists what the host has to do to the camera: which way to move it, which
//! mouse samples to turn it by, and when to refresh its look direction. The
//! host carries out that list with its own vector arithmetic.
pub mod action;
pub mod controller;
pub mod cursor;
pub mod engine;
pub mod laws;
pub mod motion;
