//! Monte-Carlo study of a four-pile patience: a dealt deck is reduced by a
//! deterministic automaton, and the outcomes of many shuffled deals are
//! collected into a histogram.

pub mod automaton;
pub mod cards;
pub mod config;
pub mod dispatch;
pub mod harness;
pub mod histogram;
pub mod progress;
pub mod race;
