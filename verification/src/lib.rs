//! A cyclical asynchronous pipeline scheduler, modelled and verified.
//!
//! The library models a driver that repeatedly runs a fixed chain of
//! heterogeneous stages (Fill, Write-Init, Compute, Verify) across many
//! iterations, where a stage of iteration `i` may depend both on an earlier
//! stage of the same iteration and on a later stage of the previous
//! iteration.  Completion signals synchronize the stages, a bounded FIFO
//! queue provides backpressure between the driver and a completion consumer,
//! and the consumer reports iterations strictly in submission order.

mod config;
mod errors;
mod laws;
mod ops;
mod pipeline;
mod queue;
mod signal;
mod stage;

pub use config::{Config, scalar_check, scalar_in_range};
pub use errors::PipelineError;
pub use ops::{
    all_elems, fill_buffer, kernel_add_values, verify_values, write_init_values, zero_buffer,
};
pub use laws::{
    lemma_backpressure, lemma_compute_gated_on_prev_verify, lemma_computed_values,
    lemma_halt_on_mismatch, lemma_healthy_reports, lemma_reports_in_order, lemma_stage_ordering,
};
pub use pipeline::{
    IterSignals, PipelineRun, Report, WaitRef, iteration_ok, run_pipeline, spec_verify_outcome,
    spec_wait_list,
};
pub use queue::BoundedQueue;
pub use signal::{Signal, SignalState, UserDataPh};
pub use stage::{Stage, StageDeps, spec_stage_deps, stage_deps};
