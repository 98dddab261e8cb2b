//! A staged evaluation pipeline that drives a smart-contract virtual machine
//! through a scripted sequence of commands and records a structured,
//! replayable trace of every stage's outcome.
//!
//! A run feeds commands, in order, to one of two evaluators. A transaction
//! command goes through four stages (compile, verify, round-trip through
//! the serializer, execute), any of which can be disabled; a block-metadata
//! command is executed as it is. Every command ends with one status entry
//! in the log, and a command that fails does not stop the run.
//!
//! * [`stage`], [`config`]: the stages, their order and the skip rule.
//! * [`types`], [`bytecode`], [`account`], [`transaction`], [`errors`]: the
//!   values that flow through the pipeline.
//! * [`capability`]: the collaborators, as traits.
//! * [`log`], [`render`]: the evaluation log, its failure query and its
//!   textual form.
//! * [`precompiled`], [`resolver`], [`params`], [`pipeline`]: the work of
//!   the single stages.
//! * [`evaluator`], [`block`], [`setup`], [`driver`]: the evaluators and the
//!   run.
//! * [`model`], [`laws`], [`failure_laws`]: what the log of a run holds, as
//!   a function of what the collaborators answer, and what follows from it.

pub mod account;
pub mod block;
pub mod bytecode;
pub mod capability;
pub mod config;
pub mod driver;
pub mod errors;
pub mod evaluator;
pub mod failure_laws;
pub mod laws;
pub mod log;
pub mod model;
pub mod params;
pub mod pipeline;
pub mod precompiled;
pub mod render;
pub mod resolver;
pub mod setup;
pub mod stage;
pub mod text;
pub mod transaction;
pub mod types;
