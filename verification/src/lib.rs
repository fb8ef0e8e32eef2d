//! A blackjack basic-strategy trainer library.
//!
//! The library covers the strategy chart (the canonical action for every
//! hand against every dealer up-card, with a teaching mnemonic for each
//! pattern), the scenario generator (concrete card sequences for a requested
//! hand category and total), the per-session statistics accumulator, and the
//! question/answer bookkeeping of a training session. Console rendering and
//! input belong to the surrounding application, which drives a session
//! through the types exported here.

use vstd::prelude::*;

pub mod stats;
pub mod strategy;
pub mod trainer;

pub use stats::Statistics;
pub use strategy::StrategyChart;
pub use trainer::{
    AbsoluteTrainingSession, DealerGroupTrainingSession, HandTypeTrainingSession,
    RandomTrainingSession, TrainingSession,
};

verus! {

/// Relies on str's PartialEq implementation: two string slices compare
/// equal exactly when their contents are equal.
pub assume_specification[ <str as PartialEq>::eq ](a: &str, b: &str) -> (r: bool)
    ensures
        r == (a@ == b@),
;

} // verus!
