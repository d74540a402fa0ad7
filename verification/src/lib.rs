//! The decisions behind a desktop status bar that is drawn into an off-screen
//! image and copied to a window.
//!
//! The library holds no window, thread, clock or socket. It says what to do
//! next; the program around it does it and reports back what came of it.

pub mod app;
pub mod back_buffer;
pub mod effects;
pub mod frame;
pub mod geometry;
pub mod pointer;
pub mod protocol;
pub mod shared;
pub mod startup;
pub mod tick;
