//! Simulation core of a one-button arcade flyer: a fixed-timestep frame
//! scheduler, a four-phase game state machine, a scrolling obstacle track and
//! the drawing plan of each phase, all on integer fixed-point quantities.
//!
//! Units used throughout:
//! - time is counted in units of 1/60000 s, so that one fixed step
//!   (1/60 s) is exactly 1000 units;
//! - world coordinates are counted in subpixels of 1/600 px, so that the base
//!   scroll rate (100 px/s) is exactly one subpixel per time unit.
//!
//! The rigid-body engine, the canvas, the input events and the random draws
//! live outside this library: they are fed in as plain values.
pub mod draw;
pub mod engine;
pub mod game;
pub mod physics;
pub mod runs;
pub mod sprites;
pub mod track;
pub mod utils;
