//! NeuroNudge: an adaptive lesson recommender for young learners on the
//! autism spectrum.
//!
//! The engine keeps a per-learner Q-table over (lesson, difficulty) pairs,
//! converts each lesson outcome into a scalar reward, classifies mastery,
//! and selects the next lesson with an epsilon-greedy policy that can
//! reinforce weak or stale difficulty levels. A deterministic-given-seed
//! simulation driver exercises the engine and records per-iteration
//! snapshots of every learner's Q-values.
//!
//! All fractional quantities (Q-values, rewards, probabilities) are held in
//! fixed-point micro-units: the integer `1_000_000` stands for the real
//! number `1.0`.

use vstd::prelude::*;

mod fixed;
mod ids;
pub mod content;
pub mod learner;
pub mod engine;
pub mod rng;
pub mod simulated_content_shapes;
pub mod simulated_content_actions;
pub mod simulated_learners;
pub mod snapshot;
pub mod simulate;

pub use fixed::UNIT;

verus! {

/// The error kinds the engine itself can report. I/O failures belong to the
/// surrounding application, not to the engine.
#[derive(Clone, Copy, Debug, PartialEq, Eq, Structural)]
pub enum EngineError {
    /// An unknown strategy tag or an unrecognized difficulty token.
    Configuration,
    /// A requested difficulty has no lesson in the seeded module.
    Catalog,
}

} // verus!
