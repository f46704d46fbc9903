//! The four pipeline stages and their statically-known dependency table.
//!
//! Each iteration of the pipeline runs the same fixed chain of stages.
//! A stage may depend on one stage of the same iteration and on one stage
//! of the previous iteration; the table below is the single source of truth
//! for that wiring, so the driver logic is data-driven rather than bespoke
//! per stage.

use vstd::prelude::*;

verus! {

/// One orchestration unit of the pipeline.
///
/// * `Fill` enqueues a device-side fill of the source buffer with a sentinel.
/// * `WriteInit` maps the source buffer, writes the start value into every
///   element, and unmaps; its completion signal marks the unmap.
/// * `Compute` enqueues the kernel that adds the addend to every element.
/// * `Verify` maps the destination buffer, scans every element against the
///   expected value, and unmaps; its completion signal marks the unmap.
#[derive(Clone, Copy, PartialEq, Eq, Structural, Debug)]
pub enum Stage {
    Fill,
    WriteInit,
    Compute,
    Verify,
}

/// The predecessors a stage must wait on: at most one stage of the same
/// iteration and at most one stage of the previous iteration.
#[derive(Clone, Copy, PartialEq, Eq, Structural, Debug)]
pub struct StageDeps {
    /// Stage of the same iteration whose completion signal is waited on.
    pub same_iter: Option<Stage>,
    /// Stage of the previous iteration whose completion signal is waited on
    /// (no wait for iteration 0).
    pub prev_iter: Option<Stage>,
}

/// The dependency table of the fixed stage chain:
///
/// * Fill(i) waits on Compute(i-1) — the buffer may be reused only once the
///   previous kernel run is done with it.
/// * WriteInit(i) waits on Fill(i).
/// * Compute(i) waits on WriteInit(i) and on Verify(i-1)'s unmap.
/// * Verify(i) waits on Compute(i).
pub open spec fn spec_stage_deps(s: Stage) -> StageDeps {
    match s {
        Stage::Fill => StageDeps { same_iter: None, prev_iter: Some(Stage::Compute) },
        Stage::WriteInit => StageDeps { same_iter: Some(Stage::Fill), prev_iter: None },
        Stage::Compute => StageDeps {
            same_iter: Some(Stage::WriteInit),
            prev_iter: Some(Stage::Verify),
        },
        Stage::Verify => StageDeps { same_iter: Some(Stage::Compute), prev_iter: None },
    }
}

/// Returns the wait-list table entry for `s`.
pub fn stage_deps(s: Stage) -> (deps: StageDeps)
    ensures
        deps == spec_stage_deps(s),
{
    match s {
        Stage::Fill => StageDeps { same_iter: None, prev_iter: Some(Stage::Compute) },
        Stage::WriteInit => StageDeps { same_iter: Some(Stage::Fill), prev_iter: None },
        Stage::Compute => StageDeps {
            same_iter: Some(Stage::WriteInit),
            prev_iter: Some(Stage::Verify),
        },
        Stage::Verify => StageDeps { same_iter: Some(Stage::Compute), prev_iter: None },
    }
}

} // verus!
