//! A three-column constraint circuit: the row layout, its single transition
//! rule, and a randomized trace generator that honours that rule.

pub mod air;
pub mod cols;
mod rng;
pub mod trace;

pub use air::ToyAir;
pub use cols::{ToyCols, NUM_TOY_COLS};
pub use trace::{generate_trace, ToyTrace};
