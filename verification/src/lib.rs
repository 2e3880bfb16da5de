//! A verified engine for a Simon-says memory game.
//!
//! The device plays back a growing sequence of short and long pulses and the
//! player reproduces it by holding a button for matching durations.  This
//! crate holds the verified core: the codec between hold durations and signal
//! symbols, the bounded game sequence with its level counter, the judgment of
//! a player's attempt, and the folding of raw noise readings into entropy
//! words.  The hardware loop that drives it lives outside the library and
//! hands in plain values: measured durations in milliseconds and one 32-bit
//! entropy word per drawn symbol.

pub mod buffer;
pub mod engine;
pub mod game;
pub mod rng;
pub mod signal;
