//! Game logic of a small arcade game in which one ship turns and thrusts
//! under keyboard control.
//!
//! The crate holds the parts of the game that are decided with whole numbers
//! and booleans: which keys are held, when the frame loop ends, how the
//! heading of the ship turns and wraps, and where a sprite lands on the
//! screen. Every function here is verified against its contract.

pub mod input;
pub mod keys;
pub mod sprite;
pub mod steering;
