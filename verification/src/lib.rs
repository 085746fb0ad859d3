//! A game of bugs that walk across a play field and are clicked dead.
//!
//! Bugs spawn off the field, one at a time and never more than a cap
//! allows, walk a drawn path of waypoints across the field, and leave it
//! at the far end unless the player clicks them dead first. A kill raises
//! the score by one; the dead bug lies on the field for a while and is
//! then taken away. Clicks and deaths are answered with effect events for
//! the presentation layer to show.
//!
//! This crate is the simulation alone, verified: it holds no rendering,
//! no input handling and no clock. Time comes in as the milliseconds that
//! have elapsed since the last tick, clicks as a batch for each tick, and
//! randomness from a random source that the caller hands over. Positions
//! are integers in field units, and speeds are field units a millisecond.
//!
//! [`session::Session`] holds the state of a game and runs its ticks.
//! [`model::SessionView`] is the same state as a mathematical value, with
//! each step of a tick as a function on it; [`laws`] proves what holds of
//! those steps.

pub mod animation;
pub mod components;
pub mod effects;
pub mod geometry;
pub mod interaction;
pub mod laws;
pub mod model;
pub mod movement;
pub mod path;
pub mod random;
pub mod session;
pub mod spawn;
pub mod timer;
