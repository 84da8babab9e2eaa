//! Cursor animation and quad batching for a terminal renderer, in exact
//! fixed-point arithmetic.
//!
//! Every length, coordinate and factor is an `i64` count of millionths
//! (see [`fixed`]), so that each result is a function of the inputs alone and
//! can be stated, and proved, to the last unit.
pub mod fixed;
pub mod font;
pub mod term;
pub mod display;
pub mod renderer;
