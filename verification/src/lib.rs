//! A verified core for a two-player Pong simulation.
//!
//! The library holds the per-frame gameplay step: paddle control, ball
//! motion, collision/bounce resolution, and round scoring. All geometry is
//! fixed-point integer arithmetic (see `components` for the unit scale), so
//! every system's effect on the game state is stated exactly in its contract.
//! Rendering, input devices, audio and asset loading are collaborators that
//! feed plain values in and read plain values out; they live outside the
//! library.

pub mod components;
pub mod world;
pub mod paddle;
pub mod move_balls;
pub mod bounce;
pub mod text;
pub mod winner;
pub mod lifecycle;
pub mod game;
