//! A bounded 2D particle sandbox: particles fall under gravity inside a
//! rectangular region, leave the simulation once they cross its border, and a
//! grid of selector controls picks the kind of particle that is spawned next.
//!
//! Positions are fixed-point: one pixel is `SUBPIXELS` units, and time is
//! counted in milliseconds.

pub mod geometry;
pub mod particle;
pub mod selector;
pub mod game;
pub mod sandbox;
