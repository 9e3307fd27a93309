//! Runtime core of a small real-time game: an input-event model with held and
//! per-frame key state, rectangle geometry, scrolling parallax backgrounds,
//! a ship view that moves and animates a player sprite, and a fixed-interval
//! frame clock.
//!
//! Scene lengths are fixed-point integers in micro-units (one scene unit is
//! `1_000_000`), elapsed time is in whole milliseconds.

pub mod geometry;
pub mod events;
pub mod sprite;
pub mod background;
pub mod frames;
pub mod scene;
pub mod view;
pub mod driver;
