//! Core logic of a small 2D arena game: a player sprite moves across the
//! arena under two input axes and eats stationary food on overlap.
//!
//! The crate holds the two per-frame systems and the scene's starting data;
//! windowing, rendering, asset loading and input polling belong to a host
//! engine that drives these functions once per frame.
//!
//! All quantities are exact fixed-point integers: coordinates in millionths
//! of a distance unit, axis readings in thousandths of full deflection, and
//! frame times in milliseconds. With those scales the per-frame displacement
//! `axis * dt * SPEED` is an exact product of raw values (see [`units`]).

pub mod entity;
pub mod motion;
pub mod overlap;
pub mod scene;
pub mod units;
