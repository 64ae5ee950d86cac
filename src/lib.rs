//! A space-station survival simulation: modules wear out at random and break,
//! the station is lost when too few solar cells keep the rest running, and a
//! player spends a small daily budget on repairs or on science.
//!
//! Quantities that are real numbers in the game are held exactly as integers:
//! a random draw in millionths of one, a volatility in tenths, and a breakdown
//! bias in ten-millionths.

mod chance;
pub mod module;
pub mod station;
pub mod player;
