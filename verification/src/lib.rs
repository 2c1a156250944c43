//! The decisions of a Wayland compositor with an infinite canvas.
//!
//! The compositor is split in two. This library holds its state and decides: what
//! an input event means, which surface takes the pointer, when a press starts a
//! grab, what a crash of XWayland leaves to clean up. The shell around it talks to
//! devices, clients and the screen.
//!
//! The shell describes what it found in the plain values of [`event`], calls a
//! method of [`state::DriftWm`], and carries out the [`effect::Effect`]s that come
//! back, in order. Where a decision depends on what an effect led to, a handler
//! comes in steps, and a value such as [`motion::MotionNext`] names the next one.
//! Windows, surfaces, outputs and clients are numbers that the shell hands out.
//! Times are given in nanoseconds since the start, and doubles by their bits.

pub mod axis;
pub mod decorations;
pub mod effect;
pub mod event;
pub mod geometry;
pub mod hit;
pub mod input;
pub mod keyboard;
pub mod motion;
pub mod move_grab;
pub mod pointer;
pub mod scalar;
pub mod state;
pub mod xwayland;
