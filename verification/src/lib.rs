//! Simulation core of a small arcade shooter.
//!
//! A ship moves along the bottom of a rectangular arena, fires bullets
//! upward and has to destroy or dodge enemies that descend from the top.
//! This crate holds the rules of that game: motion, clamping, collision
//! detection, damage and scoring. Windowing, drawing and key binding are
//! left to the program that drives it.
//!
//! All quantities are integers. Lengths are measured in units of which
//! [`config::UNITS_PER_PIXEL`] make one pixel, time in milliseconds and
//! speed in pixels per second, so that a speed times a duration is a
//! length with nothing to round. Coordinates saturate at the ends of
//! `i32` instead of overflowing.
pub mod geometry;
pub mod config;
pub mod entity;
pub mod player;
pub mod roster;
pub mod random;
pub mod motion;
pub mod collision;
pub mod session;
pub mod tick;
pub mod render;
pub mod clock;
