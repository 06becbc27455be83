//! Input and window-state layer of an interactive 3D viewer.
//!
//! The crate holds the discrete rules of the viewer: which keys are held,
//! which direction they ask for, when mouse samples and key events reach a
//! handler, how the frame clock advances, and how the draw surface is lent
//! out and taken back. Every function states its behaviour in a contract.

pub mod error;
pub mod handler;
pub mod input;
pub mod keys;
pub mod motion;
pub mod screenshot;
pub mod surface;
pub mod time;
pub mod vector;
pub mod window;
