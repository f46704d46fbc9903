//! The guarantees of the pipeline, stated as laws over any well-formed run
//! state and proved from the system invariant.  They hold at every moment
//! of a run, whatever order the runtime, the worker pool and the consumer
//! interleave their steps in.

use vstd::prelude::*;
use crate::errors::PipelineError;
use crate::pipeline::{PipelineRun, iteration_ok, spec_verify_outcome};

verus! {

/// Law: once any kernel run has completed, every element of the destination
/// buffer holds the written value plus the addend — for any element count
/// and any iteration count.
pub proof fn lemma_computed_values(p: PipelineRun)
    requires
        p.wf(),
        p.computes_done >= 1,
    ensures
        forall|j: int|
            0 <= j < p.dst@.len() ==> #[trigger] p.dst@[j] == p.cfg.write_val + p.cfg.addend,
{
}

/// Law: in a run whose every iteration expects exactly the computed value,
/// every consumer report is a success carrying the full element count.
pub proof fn lemma_healthy_reports(p: PipelineRun)
    requires
        p.wf(),
        forall|i: int| 0 <= i < p.cfg.iters ==> iteration_ok(p.cfg, i),
    ensures
        forall|j: int|
            0 <= j < p.reports@.len() ==> (#[trigger] p.reports@[j]).outcome == Ok::<
                usize,
                PipelineError,
            >(p.cfg.elem_count),
{
    assert forall|j: int|
        0 <= j < p.reports@.len() implies (#[trigger] p.reports@[j]).outcome == Ok::<
        usize,
        PipelineError,
    >(p.cfg.elem_count) by {
        assert(p.reports@[j].outcome == spec_verify_outcome(p.cfg, j));
        assert(iteration_ok(p.cfg, j));
    }
}

/// Law (backpressure): the queue holds exactly the submitted, unclaimed
/// tasks, and never more than its capacity.
pub proof fn lemma_backpressure(p: PipelineRun)
    requires
        p.wf(),
    ensures
        p.queue.view().len() == p.submitted - p.claimed,
        p.queue.view().len() <= p.cfg.capacity,
{
}

/// Law (ordering): the consumer reports iterations strictly in submission
/// order — report `j` is iteration `j` — regardless of the order in which
/// tasks actually resolved.
pub proof fn lemma_reports_in_order(p: PipelineRun)
    requires
        p.wf(),
    ensures
        forall|j: int| 0 <= j < p.reports@.len() ==> (#[trigger] p.reports@[j]).iteration == j,
{
}

/// Law (cross-iteration dependency): a kernel run never starts before the
/// previous iteration's Verify unmap signal has turned terminal — the
/// logical counter recorded at each Compute start is at least the counter
/// value recorded at that terminal transition.
pub proof fn lemma_compute_gated_on_prev_verify(p: PipelineRun)
    requires
        p.wf(),
    ensures
        forall|i: int|
            1 <= i < p.computes_done ==> (#[trigger] p.sigs@[i]).compute_start_stamp >= p.sigs@[i
                - 1].verify_unmap.terminal_tick(),
        forall|i: int|
            1 <= i < p.computes_done ==> (#[trigger] p.sigs@[i
                - 1]).verify_unmap.terminal_tick() >= 1,
{
    assert forall|i: int|
        1 <= i < p.computes_done implies (#[trigger] p.sigs@[i]).compute_start_stamp >= p.sigs@[i
        - 1].verify_unmap.terminal_tick() by {
        assert(p.sig_ok(i));
        assert(p.sig_ok(i - 1));
    }
    assert forall|i: int|
        1 <= i < p.computes_done implies (#[trigger] p.sigs@[i
        - 1]).verify_unmap.terminal_tick() >= 1 by {
        assert(p.sig_ok(i - 1));
        assert(i - 1 < p.verifies_done);
        assert(p.sigs@[i - 1].verify_unmap.terminal_tick() > p.sigs@[i
            - 1].compute.terminal_tick());
    }
}

/// Law (wait lists): a stage turns terminal strictly after every signal in
/// its wait list — Write-Init after its iteration's Fill, Verify after its
/// iteration's Compute, Fill after the previous iteration's Compute, and
/// Compute starts no earlier than its iteration's Write-Init unmap.
pub proof fn lemma_stage_ordering(p: PipelineRun)
    requires
        p.wf(),
    ensures
        forall|i: int|
            0 <= i < p.writes_done ==> (#[trigger] p.sigs@[i].write_unmap.terminal_tick())
                > p.sigs@[i].fill.terminal_tick(),
        forall|i: int|
            0 <= i < p.verifies_done ==> (#[trigger] p.sigs@[i].verify_unmap.terminal_tick())
                > p.sigs@[i].compute.terminal_tick(),
        forall|i: int|
            1 <= i < p.fills_done ==> (#[trigger] p.sigs@[i].fill.terminal_tick()) > p.sigs@[i
                - 1].compute.terminal_tick(),
        forall|i: int|
            0 <= i < p.computes_done ==> (#[trigger] p.sigs@[i].compute.terminal_tick())
                > p.sigs@[i].compute_start_stamp && p.sigs@[i].compute_start_stamp >= p.sigs@[
                i
            ].write_unmap.terminal_tick(),
{
    assert forall|i: int|
        0 <= i < p.writes_done implies (#[trigger] p.sigs@[i].write_unmap.terminal_tick())
        > p.sigs@[i].fill.terminal_tick() by {
        assert(p.sig_ok(i));
    }
    assert forall|i: int|
        0 <= i < p.verifies_done implies (#[trigger] p.sigs@[i].verify_unmap.terminal_tick())
        > p.sigs@[i].compute.terminal_tick() by {
        assert(p.sig_ok(i));
    }
    assert forall|i: int|
        1 <= i < p.fills_done implies (#[trigger] p.sigs@[i].fill.terminal_tick()) > p.sigs@[i
        - 1].compute.terminal_tick() by {
        assert(p.sig_ok(i));
    }
    assert forall|i: int|
        0 <= i < p.computes_done implies (#[trigger] p.sigs@[i].compute.terminal_tick())
        > p.sigs@[i].compute_start_stamp && p.sigs@[i].compute_start_stamp >= p.sigs@[
        i
    ].write_unmap.terminal_tick() by {
        assert(p.sig_ok(i));
    }
}

/// Law (halt on mismatch): every report but the last is a success, the
/// consumer is halted exactly when its last report failed, and a failed
/// report is the exact mismatch of its iteration — element 0, the expected
/// value of that iteration, and the computed value as the actual one.
pub proof fn lemma_halt_on_mismatch(p: PipelineRun)
    requires
        p.wf(),
    ensures
        forall|j: int| 0 <= j < p.reports@.len() - 1 ==> (#[trigger] p.reports@[j]).outcome is Ok,
        p.halted == (p.reports@.len() > 0 && p.reports@[p.reports@.len() - 1].outcome is Err),
        forall|j: int|
            0 <= j < p.reports@.len() && !iteration_ok(p.cfg, j) ==> (
            #[trigger] p.reports@[j]).outcome == Err::<usize, PipelineError>(
                PipelineError::Mismatch {
                    iteration: j as usize,
                    index: 0,
                    expected: p.cfg.expected@[j],
                    actual: (p.cfg.write_val + p.cfg.addend) as i64,
                },
            ),
{
    assert forall|j: int|
        0 <= j < p.reports@.len() && !iteration_ok(p.cfg, j) implies (
    #[trigger] p.reports@[j]).outcome == Err::<usize, PipelineError>(
        PipelineError::Mismatch {
            iteration: j as usize,
            index: 0,
            expected: p.cfg.expected@[j],
            actual: (p.cfg.write_val + p.cfg.addend) as i64,
        },
    ) by {
        assert(p.reports@[j].outcome == spec_verify_outcome(p.cfg, j));
    }
}

} // verus!
