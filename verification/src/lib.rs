//! Core of a terminal text viewer: a line buffer, the screen/buffer
//! coordinate model, the viewport render algorithm, and the motion state
//! machine that keeps the cursor inside the visible window.
//!
//! Everything here is pure state and computation; the terminal driver,
//! file reading and the input loop live with the caller, which hands this
//! library plain values and carries its answers to the screen.

pub mod buffer;
pub mod editor;
pub mod terminal;
pub mod view;
