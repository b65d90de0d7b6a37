//! Behavioural evaluation of agent runs: the cases, and how a run is judged.
pub mod cases;
pub mod runner;
pub mod types;
pub mod real_eval;
pub mod integration;
