//! Probes of a runtime's filesystem interface: what each probe does, what
//! each of its steps must come back with, and the decisions of a run.
//!
//! - `model`: file contents after a window read, a length change, repeated
//!   chunk writes, and decimal labels.
//! - `seek`: where seeks land, and a read handle on known content.
//! - `probe`: operations, expectations, outcomes, and the verdict on a step.
//! - `run`: the decisions of one probe's run, step by step.
//! - `catalog`: the probes, each with the expectations of its steps.
//! - `fsmodel`: a model of a probe's files that its expectations agree with.
//! - `laws`: what holds of every step, file and handle.
pub mod model;
pub mod seek;
pub mod probe;
pub mod run;
pub mod catalog;
pub mod laws;
pub mod fsmodel;
