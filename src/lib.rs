//! Monte Carlo simulation of a character working through randomly assigned
//! slayer tasks: the task state machine with its weighted assignment sampler,
//! the kill-by-kill completion with its chance effects, the decision policies,
//! the run driver and the reduction of many runs into a report.

pub mod catalog;
pub mod costs;
pub mod driver;
pub mod kills;
pub mod player;
pub mod random;
pub mod report;
pub mod sampler;
pub mod state;
pub mod strategy;
