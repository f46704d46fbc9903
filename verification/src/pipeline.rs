//! The pipeline run: per-iteration driver, bounded queue and completion
//! consumer, modelled as one state machine.
//!
//! The driver wires one iteration at a time (`enqueue_iteration`), hands the
//! joined iteration task to the bounded queue (`submit_task`), and after the
//! last iteration marks the end of work (`submit_end`).  The accelerator
//! runtime and the host worker pool advance independently: each enqueued
//! operation completes through one of the `complete_*` steps, in any order
//! the dependency table allows, and an iteration's joined deferred results
//! resolve through `resolve_task`.  The consumer drains the queue strictly
//! in FIFO order (`consumer_claim`, `consumer_report`) and halts at the
//! first failed iteration.
//!
//! The well-formedness predicate `wf` is the system invariant: every step
//! preserves it, and the library's laws read the guarantees straight out of
//! it — bounded outstanding work, reporting in submission order, stage
//! starts gated on their wait lists, and the computed value in every
//! verified element.

use vstd::prelude::*;
use crate::config::Config;
use crate::errors::PipelineError;
use crate::ops;
use crate::queue::BoundedQueue;
use crate::signal::{Signal, UserDataPh};
use crate::signal::SignalState;
use crate::stage::{Stage, spec_stage_deps, stage_deps};

verus! {

/// True when iteration `i` expects exactly the value the kernel computes.
pub open spec fn iteration_ok(cfg: Config, i: int) -> bool {
    cfg.expected@[i] == cfg.computed_value()
}

/// The outcome the Verify stage of iteration `i` produces: the element
/// count on success, or a mismatch at element 0 (every element holds the
/// same computed value, so a wrong expectation fails immediately).
pub open spec fn spec_verify_outcome(cfg: Config, i: int) -> Result<usize, PipelineError> {
    if iteration_ok(cfg, i) {
        Ok(cfg.elem_count)
    } else {
        Err(
            PipelineError::Mismatch {
                iteration: i as usize,
                index: 0,
                expected: cfg.expected@[i],
                actual: (cfg.write_val + cfg.addend) as i64,
            },
        )
    }
}

/// One line of the consumer's output: which iteration finished and with
/// what outcome.
#[derive(Clone, Copy, Debug, PartialEq, Eq)]
pub struct Report {
    pub iteration: usize,
    pub outcome: Result<usize, PipelineError>,
}

/// One entry of a wait list: the completion signal produced by `stage` in
/// iteration `iteration`.
#[derive(Clone, Copy, Debug, PartialEq, Eq, Structural)]
pub struct WaitRef {
    pub iteration: usize,
    pub stage: Stage,
}

/// The wait list the dependency rules require for the operation of stage
/// `s` in iteration `i`: the previous iteration's cross-dependency first
/// (absent at iteration 0), then the same iteration's predecessor.
pub open spec fn spec_wait_list(i: int, s: Stage) -> Seq<WaitRef> {
    let prev: Seq<WaitRef> = match spec_stage_deps(s).prev_iter {
        Some(q) => if i >= 1 {
            seq![WaitRef { iteration: (i - 1) as usize, stage: q }]
        } else {
            Seq::empty()
        },
        None => Seq::empty(),
    };
    let same: Seq<WaitRef> = match spec_stage_deps(s).same_iter {
        Some(p) => seq![WaitRef { iteration: i as usize, stage: p }],
        None => Seq::empty(),
    };
    prev + same
}

/// One iteration's task: the join of the iteration's two host-visible
/// deferred results.  The Write-Init pending result resolves to the
/// iteration index; the Verify pending result resolves to the element
/// count or to the mismatch it found.  The worker pool resolves the join
/// once both exist; the consumer blocks on the join and reads its report
/// from it.
#[derive(Clone, Copy, Debug, PartialEq, Eq)]
pub struct IterationTask {
    /// The Write-Init deferred value, once resolved.
    pub write_result: Option<usize>,
    /// The Verify deferred value, once resolved.
    pub verify_result: Option<Result<usize, PipelineError>>,
}

impl IterationTask {
    /// An iteration task not yet resolved by the worker pool.
    pub open spec fn spec_unresolved() -> IterationTask {
        IterationTask { write_result: None, verify_result: None }
    }

    /// True once the join of both deferred results has resolved.
    pub open spec fn is_resolved(self) -> bool {
        self.write_result is Some && self.verify_result is Some
    }
}

/// The signals one iteration retains, together with the logical counter
/// value recorded when its Compute stage started (the observability hook
/// the cross-iteration law is stated over).
pub struct IterSignals {
    /// Completion of the device-side fill.
    pub fill: Signal,
    /// Completion of the Write-Init stage's unmap.
    pub write_unmap: Signal,
    /// Completion of the kernel run.
    pub compute: Signal,
    /// Completion of the Verify stage's unmap.
    pub verify_unmap: Signal,
    /// Logical counter value observed when the kernel started.
    pub compute_start_stamp: u64,
}

/// The whole in-flight state of one pipeline run.
pub struct PipelineRun {
    /// The run's configuration.
    pub cfg: Config,
    /// The source buffer (filled, then written, then read by the kernel).
    pub src: Vec<i64>,
    /// The destination buffer (written by the kernel, read by Verify).
    pub dst: Vec<i64>,
    /// Per-iteration signals, one bundle per enqueued iteration.
    pub sigs: Vec<IterSignals>,
    /// Outcome of each completed Verify stage.
    pub verify_out: Vec<Result<usize, PipelineError>>,
    /// Each iteration's task: the join of its two deferred results.
    pub tasks: Vec<IterationTask>,
    /// The bounded pipeline queue of submitted, unclaimed task indices.
    pub queue: BoundedQueue<usize>,
    /// What the consumer has reported so far, in order.
    pub reports: Vec<Report>,
    /// The monotonic logical counter: one increment per terminal transition.
    pub ticks: u64,
    /// Iterations the driver has wired (0-prefix).
    pub enqueued: usize,
    /// Tasks the driver has submitted to the queue (0-prefix).
    pub submitted: usize,
    /// Tasks the consumer has claimed from the queue (0-prefix).
    pub claimed: usize,
    /// Fill stages completed (0-prefix).
    pub fills_done: usize,
    /// Write-Init unmaps completed (0-prefix).
    pub writes_done: usize,
    /// Kernel runs completed (0-prefix).
    pub computes_done: usize,
    /// Verify unmaps completed (0-prefix).
    pub verifies_done: usize,
    /// Whether the driver has submitted the end-of-work marker.
    pub end_submitted: bool,
    /// Whether the consumer has observed the end-of-work marker.
    pub consumer_done: bool,
    /// Whether the consumer has halted after reporting a failed iteration.
    pub halted: bool,
}

impl PipelineRun {
    /// How many operations of stage `s` have completed; operations of one
    /// stage complete in iteration order, so this is also the iteration the
    /// stage's next operation belongs to.
    pub open spec fn done_of(self, s: Stage) -> int {
        match s {
            Stage::Fill => self.fills_done as int,
            Stage::WriteInit => self.writes_done as int,
            Stage::Compute => self.computes_done as int,
            Stage::Verify => self.verifies_done as int,
        }
    }

    /// The wait list of stage `s`'s next operation is fully complete: the
    /// operation has been enqueued, its same-iteration predecessor (if the
    /// dependency table names one) is done for this iteration, and its
    /// previous-iteration predecessor is done for iteration `i - 1` (no
    /// wait at iteration 0).
    pub open spec fn stage_ready(self, s: Stage) -> bool {
        let i = self.done_of(s);
        &&& i < self.enqueued
        &&& (match spec_stage_deps(s).same_iter {
            Some(p) => self.done_of(p) >= i + 1,
            None => true,
        })
        &&& (match spec_stage_deps(s).prev_iter {
            Some(q) => i == 0 || self.done_of(q) >= i,
            None => true,
        })
    }

    /// The completion signal produced by `s` in iteration `i`.
    pub open spec fn stage_signal(self, i: int, s: Stage) -> Signal {
        match s {
            Stage::Fill => self.sigs@[i].fill,
            Stage::WriteInit => self.sigs@[i].write_unmap,
            Stage::Compute => self.sigs@[i].compute,
            Stage::Verify => self.sigs@[i].verify_unmap,
        }
    }

    /// Rebuilds, from scratch, the wait list of stage `s`'s next operation
    /// — exactly the signals the dependency rules require.  The operation
    /// may start exactly when every signal in the list is
    /// `Terminal{Complete}`: `stage_ready` is that condition.
    pub fn build_wait_list(&self, s: Stage) -> (wl: Vec<WaitRef>)
        requires
            self.wf(),
            self.done_of(s) < self.enqueued,
        ensures
            wl@ == spec_wait_list(self.done_of(s), s),
            self.stage_ready(s) <==> (forall|j: int|
                0 <= j < wl@.len() ==> self.stage_signal(
                    (#[trigger] wl@[j]).iteration as int,
                    wl@[j].stage,
                ).state() is Complete),
    {
        let deps = stage_deps(s);
        let i = self.done_count(s);
        let mut wl: Vec<WaitRef> = Vec::new();
        if let Some(q) = deps.prev_iter {
            if i >= 1 {
                wl.push(WaitRef { iteration: i - 1, stage: q });
            }
        }
        if let Some(p) = deps.same_iter {
            wl.push(WaitRef { iteration: i, stage: p });
        }
        proof {
            let ghost gi = self.done_of(s);
            assert(wl@ =~= spec_wait_list(gi, s));
            match s {
                Stage::Fill => {
                    if gi >= 1 {
                        assert(wl@[0] == (WaitRef {
                            iteration: (gi - 1) as usize,
                            stage: Stage::Compute,
                        }));
                        assert(self.sig_ok(gi - 1));
                    }
                },
                Stage::WriteInit => {
                    assert(wl@[0] == (WaitRef { iteration: gi as usize, stage: Stage::Fill }));
                    assert(self.sig_ok(gi));
                },
                Stage::Compute => {
                    if gi >= 1 {
                        assert(wl@[0] == (WaitRef {
                            iteration: (gi - 1) as usize,
                            stage: Stage::Verify,
                        }));
                        assert(wl@[1] == (WaitRef {
                            iteration: gi as usize,
                            stage: Stage::WriteInit,
                        }));
                        assert(self.sig_ok(gi - 1));
                        assert(self.sig_ok(gi));
                    } else {
                        assert(wl@[0] == (WaitRef {
                            iteration: gi as usize,
                            stage: Stage::WriteInit,
                        }));
                        assert(self.sig_ok(gi));
                    }
                },
                Stage::Verify => {
                    assert(wl@[0] == (WaitRef { iteration: gi as usize, stage: Stage::Compute }));
                    assert(self.sig_ok(gi));
                },
            }
        }
        wl
    }

    /// Counter sanity: the stage counters form a chain ordered by the
    /// dependency table, the driver alternates wiring and submitting, the
    /// consumer never claims ahead of the queue nor reports ahead of its
    /// claimed task, the queue never holds more than the capacity, and the
    /// logical counter equals the number of terminal transitions.
    pub open spec fn wf_counts(self) -> bool {
        &&& self.verifies_done <= self.computes_done
        &&& self.computes_done <= self.writes_done
        &&& self.writes_done <= self.fills_done
        &&& self.fills_done <= self.enqueued
        &&& self.enqueued <= self.cfg.iters
        &&& self.fills_done <= self.computes_done + 1
        &&& self.computes_done <= self.verifies_done + 1
        &&& self.submitted <= self.enqueued <= self.submitted + 1
        &&& self.claimed <= self.submitted
        &&& self.reports@.len() <= self.claimed <= self.reports@.len() + 1
        &&& self.submitted - self.claimed <= self.cfg.capacity
        &&& self.ticks == self.fills_done + self.writes_done + self.computes_done
            + self.verifies_done
    }

    /// The signal bundle of iteration `i` is in the state the counters say:
    /// a stage's signal is complete exactly for iterations below the
    /// stage's counter, and the recorded terminal ticks order every signal
    /// strictly after all the signals in its operation's wait list.
    pub open spec fn sig_ok(self, i: int) -> bool {
        let b = self.sigs@[i];
        &&& b.fill.wf()
        &&& b.write_unmap.wf()
        &&& b.compute.wf()
        &&& b.verify_unmap.wf()
        &&& b.fill.state() == (if i < self.fills_done {
            SignalState::Complete
        } else {
            SignalState::Pending
        })
        &&& b.write_unmap.state() == (if i < self.writes_done {
            SignalState::Complete
        } else {
            SignalState::Pending
        })
        &&& b.compute.state() == (if i < self.computes_done {
            SignalState::Complete
        } else {
            SignalState::Pending
        })
        &&& b.verify_unmap.state() == (if i < self.verifies_done {
            SignalState::Complete
        } else {
            SignalState::Pending
        })
        &&& b.compute_start_stamp <= self.ticks
        &&& i < self.fills_done ==> b.fill.terminal_tick() <= self.ticks
        &&& (1 <= i && i < self.fills_done) ==> b.fill.terminal_tick()
            > self.sigs@[i - 1].compute.terminal_tick()
        &&& i < self.writes_done ==> {
            &&& b.write_unmap.terminal_tick() <= self.ticks
            &&& b.write_unmap.terminal_tick() > b.fill.terminal_tick()
        }
        &&& i < self.computes_done ==> {
            &&& b.compute.terminal_tick() <= self.ticks
            &&& b.compute.terminal_tick() > b.compute_start_stamp
            &&& b.compute_start_stamp >= b.write_unmap.terminal_tick()
            &&& i >= 1 ==> b.compute_start_stamp >= self.sigs@[i - 1].verify_unmap.terminal_tick()
        }
        &&& i < self.verifies_done ==> {
            &&& b.verify_unmap.terminal_tick() <= self.ticks
            &&& b.verify_unmap.terminal_tick() > b.compute.terminal_tick()
        }
    }

    /// One signal bundle per enqueued iteration, each in step with the
    /// counters.
    pub open spec fn wf_signals(self) -> bool {
        &&& self.sigs@.len() == self.enqueued
        &&& forall|i: int| 0 <= i < self.enqueued ==> #[trigger] self.sig_ok(i)
    }

    /// What the buffers hold, as a function of the stage counters: the
    /// source buffer holds the sentinel between a Fill and its Write-Init,
    /// and the written value afterwards; the destination buffer holds the
    /// computed value once any kernel run has completed.
    pub open spec fn wf_buffers(self) -> bool {
        &&& self.src@.len() == self.cfg.elem_count
        &&& self.dst@.len() == self.cfg.elem_count
        &&& self.fills_done > self.writes_done ==> ops::all_elems(self.src@, self.cfg.fill_sentinel)
        &&& (self.fills_done == self.writes_done && self.writes_done >= 1) ==> ops::all_elems(
            self.src@,
            self.cfg.write_val,
        )
        &&& self.computes_done >= 1 ==> forall|j: int|
            0 <= j < self.dst@.len() ==> #[trigger] self.dst@[j] == self.cfg.computed_value()
    }

    /// Verify outcomes and task resolution: each completed Verify stage
    /// produced exactly the outcome the configuration dictates, and a task
    /// resolves only once both of its deferred results exist.
    pub open spec fn wf_results(self) -> bool {
        &&& self.verify_out@.len() == self.verifies_done
        &&& forall|i: int|
            0 <= i < self.verifies_done ==> #[trigger] self.verify_out@[i] == spec_verify_outcome(
                self.cfg,
                i,
            )
        &&& self.tasks@.len() == self.enqueued
        &&& forall|i: int|
            0 <= i < self.enqueued ==> ((#[trigger] self.tasks@[i]).is_resolved() || self.tasks@[i]
                == IterationTask::spec_unresolved())
        &&& forall|i: int|
            0 <= i < self.enqueued && (#[trigger] self.tasks@[i]).is_resolved() ==> {
                &&& i < self.writes_done
                &&& i < self.verifies_done
                &&& self.tasks@[i].write_result == Some(i as usize)
                &&& self.tasks@[i].verify_result == Some(spec_verify_outcome(self.cfg, i))
            }
    }

    /// The queue holds exactly the submitted, unclaimed task indices, in
    /// submission order, and is closed exactly when the end-of-work marker
    /// has been submitted.
    pub open spec fn wf_queue(self) -> bool {
        &&& self.queue.wf()
        &&& self.queue.spec_capacity() == self.cfg.capacity
        &&& self.queue.is_closed() == self.end_submitted
        &&& self.queue.view() == Seq::new(
            (self.submitted - self.claimed) as nat,
            |j: int| (self.claimed + j) as usize,
        )
    }

    /// The consumer's output: report `j` is iteration `j` with the outcome
    /// the configuration dictates, every report but the last is a success,
    /// each reported task had resolved, and the consumer is halted exactly
    /// when its last report was a failure.
    pub open spec fn wf_reports(self) -> bool {
        &&& forall|j: int| 0 <= j < self.reports@.len() ==> {
            &&& (#[trigger] self.reports@[j]).iteration == j
            &&& self.reports@[j].outcome == spec_verify_outcome(self.cfg, j)
            &&& self.tasks@[j].is_resolved()
        }
        &&& forall|j: int|
            0 <= j < self.reports@.len() - 1 ==> (#[trigger] self.reports@[j]).outcome is Ok
        &&& self.halted == (self.reports@.len() > 0 && self.reports@[self.reports@.len()
            - 1].outcome is Err)
    }

    /// End-of-run bookkeeping: the marker goes out only after all
    /// iterations, and the consumer finishes only after taking the marker
    /// from a fully drained, fully reported, unhalted run.
    pub open spec fn wf_flow(self) -> bool {
        &&& self.end_submitted ==> self.submitted == self.cfg.iters && self.enqueued
            == self.cfg.iters
        &&& self.consumer_done ==> self.end_submitted && self.claimed == self.cfg.iters
            && self.reports@.len() == self.cfg.iters && !self.halted
    }

    /// The system invariant.
    pub open spec fn wf(self) -> bool {
        &&& self.cfg.valid()
        &&& self.wf_counts()
        &&& self.wf_signals()
        &&& self.wf_buffers()
        &&& self.wf_results()
        &&& self.wf_queue()
        &&& self.wf_reports()
        &&& self.wf_flow()
    }

    /// Creates the initial state of a run: zeroed buffers, an empty open
    /// queue, nothing enqueued, nothing reported.
    pub fn new(cfg: Config) -> (p: PipelineRun)
        requires
            cfg.valid(),
        ensures
            p.wf(),
            p.cfg == cfg,
            p.enqueued == 0,
            p.submitted == 0,
            p.claimed == 0,
            p.fills_done == 0,
            p.writes_done == 0,
            p.computes_done == 0,
            p.verifies_done == 0,
            p.ticks == 0,
            p.reports@.len() == 0,
            !p.end_submitted,
            !p.consumer_done,
            !p.halted,
    {
        let src = ops::zero_buffer(cfg.elem_count);
        let dst = ops::zero_buffer(cfg.elem_count);
        let queue: BoundedQueue<usize> = BoundedQueue::new(cfg.capacity);
        let p = PipelineRun {
            cfg,
            src,
            dst,
            sigs: Vec::new(),
            verify_out: Vec::new(),
            tasks: Vec::new(),
            queue,
            reports: Vec::new(),
            ticks: 0,
            enqueued: 0,
            submitted: 0,
            claimed: 0,
            fills_done: 0,
            writes_done: 0,
            computes_done: 0,
            verifies_done: 0,
            end_submitted: false,
            consumer_done: false,
            halted: false,
        };
        proof {
            assert(p.queue.view() =~= Seq::new(0nat, |j: int| (0 + j) as usize));
        }
        p
    }

    /// Exec mirror of `done_of`.
    pub fn done_count(&self, s: Stage) -> (n: usize)
        ensures
            n as int == self.done_of(s),
    {
        match s {
            Stage::Fill => self.fills_done,
            Stage::WriteInit => self.writes_done,
            Stage::Compute => self.computes_done,
            Stage::Verify => self.verifies_done,
        }
    }

    /// Evaluates the wait list of stage `s`'s next operation at run time.
    pub fn stage_is_ready(&self, s: Stage) -> (r: bool)
        requires
            self.wf(),
        ensures
            r == self.stage_ready(s),
    {
        let deps = stage_deps(s);
        let i = self.done_count(s);
        let same_ok = match deps.same_iter {
            Some(p) => self.done_count(p) > i,
            None => true,
        };
        let prev_ok = match deps.prev_iter {
            Some(q) => i == 0 || self.done_count(q) >= i,
            None => true,
        };
        i < self.enqueued && same_ok && prev_ok
    }

    /// The driver wires iteration `enqueued`: creates this iteration's
    /// four signals, binds each to its operation, and attaches a status
    /// callback carrying the iteration index.  The operations' wait lists
    /// follow the dependency table and are enforced by the `complete_*`
    /// steps.  Wiring never blocks; the driver must first have submitted
    /// the previous iteration's task.
    pub fn enqueue_iteration(&mut self)
        requires
            old(self).wf(),
            old(self).enqueued < old(self).cfg.iters,
            old(self).enqueued == old(self).submitted,
        ensures
            final(self).wf(),
            final(self).cfg == old(self).cfg,
            final(self).enqueued == old(self).enqueued + 1,
            final(self).submitted == old(self).submitted,
            final(self).claimed == old(self).claimed,
            final(self).fills_done == old(self).fills_done,
            final(self).writes_done == old(self).writes_done,
            final(self).computes_done == old(self).computes_done,
            final(self).verifies_done == old(self).verifies_done,
            final(self).ticks == old(self).ticks,
            final(self).reports@ == old(self).reports@,
            final(self).queue == old(self).queue,
            final(self).halted == old(self).halted,
            final(self).end_submitted == old(self).end_submitted,
            final(self).consumer_done == old(self).consumer_done,
            final(self).tasks@ == old(self).tasks@.push(IterationTask::spec_unresolved()),
            final(self).sigs@.len() == old(self).sigs@.len() + 1,
    {
        let idx = self.enqueued;
        let mut fill = Signal::empty();
        fill.bind();
        let _ = fill.register_callback(UserDataPh(idx));
        let mut write_unmap = Signal::empty();
        write_unmap.bind();
        let _ = write_unmap.register_callback(UserDataPh(idx));
        let mut compute = Signal::empty();
        compute.bind();
        let _ = compute.register_callback(UserDataPh(idx));
        let mut verify_unmap = Signal::empty();
        verify_unmap.bind();
        let _ = verify_unmap.register_callback(UserDataPh(idx));
        let bundle = IterSignals {
            fill,
            write_unmap,
            compute,
            verify_unmap,
            compute_start_stamp: 0,
        };
        self.sigs.push(bundle);
        self.tasks.push(IterationTask { write_result: None, verify_result: None });
        self.enqueued = idx + 1;
        proof {
            assert forall|i: int| 0 <= i < self.enqueued implies #[trigger] self.sig_ok(i) by {
                if i < old(self).enqueued {
                    assert(old(self).sig_ok(i));
                    assert(self.sigs@[i] == old(self).sigs@[i]);
                }
            }
        }
    }

    /// The device finishes the next Fill operation: the source buffer now
    /// holds the sentinel pattern and the fill signal turns terminal.
    /// Enabled only once the operation's wait list — Compute of the
    /// previous iteration — is fully complete.
    pub fn complete_fill(&mut self)
        requires
            old(self).wf(),
            old(self).stage_ready(Stage::Fill),
        ensures
            final(self).wf(),
            final(self).cfg == old(self).cfg,
            final(self).fills_done == old(self).fills_done + 1,
            final(self).writes_done == old(self).writes_done,
            final(self).computes_done == old(self).computes_done,
            final(self).verifies_done == old(self).verifies_done,
            final(self).enqueued == old(self).enqueued,
            final(self).submitted == old(self).submitted,
            final(self).claimed == old(self).claimed,
            final(self).ticks == old(self).ticks + 1,
            final(self).reports@ == old(self).reports@,
            final(self).tasks@ == old(self).tasks@,
            final(self).verify_out@ == old(self).verify_out@,
            final(self).queue == old(self).queue,
            final(self).halted == old(self).halted,
            final(self).end_submitted == old(self).end_submitted,
            final(self).consumer_done == old(self).consumer_done,
            final(self).sigs@.len() == old(self).sigs@.len(),
    {
        let i = self.fills_done;
        proof {
            assert(self.sig_ok(i as int));
        }
        let tick = self.ticks + 1;
        self.ticks = tick;
        ops::fill_buffer(&mut self.src, self.cfg.fill_sentinel);
        self.sigs[i].fill.complete(tick);
        self.fills_done = i + 1;
        proof {
            assert forall|j: int| 0 <= j < self.enqueued implies #[trigger] self.sig_ok(j) by {
                assert(old(self).sig_ok(j));
                if j >= 1 {
                    assert(old(self).sig_ok(j - 1));
                }
                if j != i {
                    assert(self.sigs@[j] == old(self).sigs@[j]);
                }
                if j >= 1 && j - 1 != i {
                    assert(self.sigs@[j - 1] == old(self).sigs@[j - 1]);
                }
            }
        }
    }

    /// The worker pool finishes the next Write-Init operation: the mapped
    /// view was available (the iteration's Fill is complete), the written
    /// value now stands in every source element, and the unmap signal turns
    /// terminal.
    pub fn complete_write_init(&mut self)
        requires
            old(self).wf(),
            old(self).stage_ready(Stage::WriteInit),
        ensures
            final(self).wf(),
            final(self).cfg == old(self).cfg,
            final(self).writes_done == old(self).writes_done + 1,
            final(self).fills_done == old(self).fills_done,
            final(self).computes_done == old(self).computes_done,
            final(self).verifies_done == old(self).verifies_done,
            final(self).enqueued == old(self).enqueued,
            final(self).submitted == old(self).submitted,
            final(self).claimed == old(self).claimed,
            final(self).ticks == old(self).ticks + 1,
            final(self).reports@ == old(self).reports@,
            final(self).tasks@ == old(self).tasks@,
            final(self).verify_out@ == old(self).verify_out@,
            final(self).queue == old(self).queue,
            final(self).halted == old(self).halted,
            final(self).end_submitted == old(self).end_submitted,
            final(self).consumer_done == old(self).consumer_done,
            final(self).sigs@.len() == old(self).sigs@.len(),
    {
        let i = self.writes_done;
        proof {
            assert(self.sig_ok(i as int));
        }
        let tick = self.ticks + 1;
        self.ticks = tick;
        ops::write_init_values(&mut self.src, self.cfg.write_val);
        self.sigs[i].write_unmap.complete(tick);
        self.writes_done = i + 1;
        proof {
            assert forall|j: int| 0 <= j < self.enqueued implies #[trigger] self.sig_ok(j) by {
                assert(old(self).sig_ok(j));
                if j >= 1 {
                    assert(old(self).sig_ok(j - 1));
                }
                if j != i {
                    assert(self.sigs@[j] == old(self).sigs@[j]);
                }
                if j >= 1 && j - 1 != i {
                    assert(self.sigs@[j - 1] == old(self).sigs@[j - 1]);
                }
            }
        }
    }

    /// The device finishes the next Compute operation: the kernel ran with
    /// a wait list holding this iteration's Write-Init unmap signal and the
    /// previous iteration's Verify unmap signal, so it read the written
    /// value and left the computed value in every destination element.
    /// The logical counter is recorded at the kernel's start.
    pub fn complete_compute(&mut self)
        requires
            old(self).wf(),
            old(self).stage_ready(Stage::Compute),
        ensures
            final(self).wf(),
            final(self).cfg == old(self).cfg,
            final(self).computes_done == old(self).computes_done + 1,
            final(self).fills_done == old(self).fills_done,
            final(self).writes_done == old(self).writes_done,
            final(self).verifies_done == old(self).verifies_done,
            final(self).enqueued == old(self).enqueued,
            final(self).submitted == old(self).submitted,
            final(self).claimed == old(self).claimed,
            final(self).ticks == old(self).ticks + 1,
            final(self).reports@ == old(self).reports@,
            final(self).tasks@ == old(self).tasks@,
            final(self).verify_out@ == old(self).verify_out@,
            final(self).queue == old(self).queue,
            final(self).halted == old(self).halted,
            final(self).end_submitted == old(self).end_submitted,
            final(self).consumer_done == old(self).consumer_done,
            final(self).sigs@.len() == old(self).sigs@.len(),
    {
        let i = self.computes_done;
        proof {
            assert(self.sig_ok(i as int));
            if i >= 1 {
                assert(self.sig_ok(i as int - 1));
            }
        }
        let stamp = self.ticks;
        let tick = self.ticks + 1;
        self.ticks = tick;
        self.sigs[i].compute_start_stamp = stamp;
        proof {
            assert(ops::all_elems(self.src@, self.cfg.write_val));
            assert forall|j: int|
                0 <= j < self.src@.len() implies i64::MIN <= #[trigger] self.src@[j]
                + self.cfg.addend <= i64::MAX by {
                assert(self.src@[j] == self.cfg.write_val);
            }
        }
        ops::kernel_add_values(&self.src, self.cfg.addend, &mut self.dst);
        self.sigs[i].compute.complete(tick);
        self.computes_done = i + 1;
        proof {
            assert forall|j: int| 0 <= j < self.enqueued implies #[trigger] self.sig_ok(j) by {
                assert(old(self).sig_ok(j));
                if j >= 1 {
                    assert(old(self).sig_ok(j - 1));
                }
                if j != i {
                    assert(self.sigs@[j] == old(self).sigs@[j]);
                }
                if j >= 1 && j - 1 != i {
                    assert(self.sigs@[j - 1] == old(self).sigs@[j - 1]);
                }
            }
        }
    }

    /// The worker pool finishes the next Verify operation: the mapped view
    /// was available (the iteration's Compute is complete), every element
    /// was scanned against this iteration's expected value, the outcome was
    /// recorded, and the unmap signal turned terminal.
    pub fn complete_verify(&mut self)
        requires
            old(self).wf(),
            old(self).stage_ready(Stage::Verify),
        ensures
            final(self).wf(),
            final(self).cfg == old(self).cfg,
            final(self).verifies_done == old(self).verifies_done + 1,
            final(self).fills_done == old(self).fills_done,
            final(self).writes_done == old(self).writes_done,
            final(self).computes_done == old(self).computes_done,
            final(self).enqueued == old(self).enqueued,
            final(self).submitted == old(self).submitted,
            final(self).claimed == old(self).claimed,
            final(self).ticks == old(self).ticks + 1,
            final(self).reports@ == old(self).reports@,
            final(self).tasks@ == old(self).tasks@,
            final(self).verify_out@ == old(self).verify_out@.push(
                spec_verify_outcome(old(self).cfg, old(self).verifies_done as int),
            ),
            final(self).queue == old(self).queue,
            final(self).halted == old(self).halted,
            final(self).end_submitted == old(self).end_submitted,
            final(self).consumer_done == old(self).consumer_done,
            final(self).sigs@.len() == old(self).sigs@.len(),
    {
        let i = self.verifies_done;
        proof {
            assert(self.sig_ok(i as int));
        }
        let tick = self.ticks + 1;
        self.ticks = tick;
        let out = ops::verify_values(&self.dst, self.cfg.expected[i], i);
        proof {
            assert(self.dst@[0] == self.cfg.computed_value());
            if iteration_ok(self.cfg, i as int) {
                assert(ops::all_elems(self.dst@, self.cfg.expected@[i as int]));
            } else {
                assert(!ops::all_elems(self.dst@, self.cfg.expected@[i as int]));
            }
            assert(out == spec_verify_outcome(self.cfg, i as int));
        }
        self.verify_out.push(out);
        self.sigs[i].verify_unmap.complete(tick);
        self.verifies_done = i + 1;
        proof {
            assert forall|j: int| 0 <= j < self.enqueued implies #[trigger] self.sig_ok(j) by {
                assert(old(self).sig_ok(j));
                if j >= 1 {
                    assert(old(self).sig_ok(j - 1));
                }
                if j != i {
                    assert(self.sigs@[j] == old(self).sigs@[j]);
                }
                if j >= 1 && j - 1 != i {
                    assert(self.sigs@[j - 1] == old(self).sigs@[j - 1]);
                }
            }
        }
    }

    /// The worker pool resolves iteration `i`'s joined task: both of its
    /// deferred results — the Write-Init index and the Verify count — now
    /// exist.  Tasks may resolve in any order across iterations.
    pub fn resolve_task(&mut self, i: usize)
        requires
            old(self).wf(),
            i < old(self).writes_done,
            i < old(self).verifies_done,
        ensures
            final(self).wf(),
            final(self).tasks@ == old(self).tasks@.update(
                i as int,
                IterationTask {
                    write_result: Some(i),
                    verify_result: Some(spec_verify_outcome(old(self).cfg, i as int)),
                },
            ),
            *final(self) == (PipelineRun { tasks: final(self).tasks, ..*old(self) }),
    {
        proof {
            assert(i < self.enqueued);
        }
        let verify_result = self.verify_out[i];
        self.tasks[i] = IterationTask { write_result: Some(i), verify_result: Some(verify_result) };
        proof {
            assert forall|j: int| 0 <= j < self.enqueued implies #[trigger] self.sig_ok(j) by {
                assert(old(self).sig_ok(j));
            }
        }
    }

    /// The driver submits the wired iteration's task to the bounded queue.
    /// The precondition models the driver blocking while the queue is full:
    /// the step is enabled only once the consumer has made room.
    pub fn submit_task(&mut self)
        requires
            old(self).wf(),
            old(self).enqueued == old(self).submitted + 1,
            old(self).submitted - old(self).claimed < old(self).cfg.capacity,
        ensures
            final(self).wf(),
            final(self).cfg == old(self).cfg,
            final(self).submitted == old(self).submitted + 1,
            final(self).enqueued == old(self).enqueued,
            final(self).claimed == old(self).claimed,
            final(self).fills_done == old(self).fills_done,
            final(self).writes_done == old(self).writes_done,
            final(self).computes_done == old(self).computes_done,
            final(self).verifies_done == old(self).verifies_done,
            final(self).ticks == old(self).ticks,
            final(self).reports@ == old(self).reports@,
            final(self).tasks@ == old(self).tasks@,
            final(self).verify_out@ == old(self).verify_out@,
            final(self).sigs@ == old(self).sigs@,
            final(self).halted == old(self).halted,
            final(self).end_submitted == old(self).end_submitted,
            final(self).consumer_done == old(self).consumer_done,
            final(self).queue.view().len() == old(self).queue.view().len() + 1,
    {
        let task = self.submitted;
        let r = self.queue.submit(task);
        self.submitted = task + 1;
        proof {
            assert(self.queue.view() =~= Seq::new(
                (self.submitted - self.claimed) as nat,
                |j: int| (self.claimed + j) as usize,
            ));
            assert forall|j: int| 0 <= j < self.enqueued implies #[trigger] self.sig_ok(j) by {
                assert(old(self).sig_ok(j));
            }
        }
    }

    /// After the last iteration's task, the driver submits the end-of-work
    /// marker by closing the queue.
    pub fn submit_end(&mut self)
        requires
            old(self).wf(),
            old(self).submitted == old(self).cfg.iters,
            old(self).enqueued == old(self).cfg.iters,
        ensures
            final(self).wf(),
            final(self).cfg == old(self).cfg,
            final(self).end_submitted,
            final(self).submitted == old(self).submitted,
            final(self).enqueued == old(self).enqueued,
            final(self).claimed == old(self).claimed,
            final(self).fills_done == old(self).fills_done,
            final(self).writes_done == old(self).writes_done,
            final(self).computes_done == old(self).computes_done,
            final(self).verifies_done == old(self).verifies_done,
            final(self).ticks == old(self).ticks,
            final(self).reports@ == old(self).reports@,
            final(self).tasks@ == old(self).tasks@,
            final(self).verify_out@ == old(self).verify_out@,
            final(self).sigs@ == old(self).sigs@,
            final(self).halted == old(self).halted,
            final(self).consumer_done == old(self).consumer_done,
    {
        self.queue.close();
        self.end_submitted = true;
        proof {
            assert forall|j: int| 0 <= j < self.enqueued implies #[trigger] self.sig_ok(j) by {
                assert(old(self).sig_ok(j));
            }
        }
    }

    /// The consumer claims the oldest submitted task from the queue, making
    /// room for the driver.  It holds at most one claimed task at a time
    /// and never claims past a failed report.
    pub fn consumer_claim(&mut self)
        requires
            old(self).wf(),
            old(self).claimed < old(self).submitted,
            old(self).claimed == old(self).reports@.len(),
            !old(self).halted,
        ensures
            final(self).wf(),
            final(self).cfg == old(self).cfg,
            final(self).claimed == old(self).claimed + 1,
            final(self).submitted == old(self).submitted,
            final(self).enqueued == old(self).enqueued,
            final(self).fills_done == old(self).fills_done,
            final(self).writes_done == old(self).writes_done,
            final(self).computes_done == old(self).computes_done,
            final(self).verifies_done == old(self).verifies_done,
            final(self).ticks == old(self).ticks,
            final(self).reports@ == old(self).reports@,
            final(self).tasks@ == old(self).tasks@,
            final(self).verify_out@ == old(self).verify_out@,
            final(self).sigs@ == old(self).sigs@,
            final(self).halted == old(self).halted,
            final(self).end_submitted == old(self).end_submitted,
            final(self).consumer_done == old(self).consumer_done,
            final(self).queue.view().len() == old(self).queue.view().len() - 1,
    {
        let claimed = self.queue.claim();
        self.claimed = self.claimed + 1;
        proof {
            assert(claimed == Some(old(self).claimed));
            assert(self.queue.view() =~= Seq::new(
                (self.submitted - self.claimed) as nat,
                |j: int| (self.claimed + j) as usize,
            ));
            assert forall|j: int| 0 <= j < self.enqueued implies #[trigger] self.sig_ok(j) by {
                assert(old(self).sig_ok(j));
            }
        }
    }

    /// The consumer blocks on its claimed task until the task resolves,
    /// then reports the iteration's outcome.  The precondition models the
    /// block: the step is enabled only once the task has resolved.  A
    /// failed outcome halts all further consumption.
    pub fn consumer_report(&mut self) -> (rep: Report)
        requires
            old(self).wf(),
            old(self).claimed == old(self).reports@.len() + 1,
            old(self).tasks@[old(self).reports@.len() as int].is_resolved(),
            !old(self).halted,
        ensures
            final(self).wf(),
            final(self).cfg == old(self).cfg,
            final(self).reports@ == old(self).reports@.push(rep),
            rep.iteration == old(self).reports@.len(),
            rep.outcome == spec_verify_outcome(old(self).cfg, old(self).reports@.len() as int),
            final(self).halted == (rep.outcome is Err),
            final(self).claimed == old(self).claimed,
            final(self).submitted == old(self).submitted,
            final(self).enqueued == old(self).enqueued,
            final(self).fills_done == old(self).fills_done,
            final(self).writes_done == old(self).writes_done,
            final(self).computes_done == old(self).computes_done,
            final(self).verifies_done == old(self).verifies_done,
            final(self).ticks == old(self).ticks,
            final(self).tasks@ == old(self).tasks@,
            final(self).verify_out@ == old(self).verify_out@,
            final(self).sigs@ == old(self).sigs@,
            final(self).end_submitted == old(self).end_submitted,
            final(self).consumer_done == old(self).consumer_done,
            final(self).queue == old(self).queue,
    {
        let j = self.reports.len();
        proof {
            assert(j < self.enqueued);
            assert(self.tasks@[j as int].is_resolved());
        }
        let task = self.tasks[j];
        let iteration = task.write_result.unwrap();
        let outcome = task.verify_result.unwrap();
        let rep = Report { iteration, outcome };
        self.reports.push(rep);
        if outcome.is_err() {
            self.halted = true;
        }
        proof {
            assert forall|jj: int| 0 <= jj < self.enqueued implies #[trigger] self.sig_ok(jj) by {
                assert(old(self).sig_ok(jj));
            }
        }
        rep
    }

    /// The consumer drains the closed queue empty and observes the
    /// end-of-work marker: the run is over and every iteration has been
    /// reported.
    pub fn consumer_finish(&mut self)
        requires
            old(self).wf(),
            old(self).end_submitted,
            old(self).claimed == old(self).submitted,
            old(self).reports@.len() == old(self).claimed,
            !old(self).halted,
        ensures
            final(self).wf(),
            final(self).cfg == old(self).cfg,
            final(self).consumer_done,
            final(self).reports@ == old(self).reports@,
            final(self).halted == old(self).halted,
            *final(self) == (PipelineRun { consumer_done: true, queue: final(self).queue, ..*old(self) }),
    {
        let next = self.queue.claim();
        proof {
            assert(self.queue.view().len() == 0);
            assert(next is None);
        }
        self.consumer_done = true;
        proof {
            assert forall|j: int| 0 <= j < self.enqueued implies #[trigger] self.sig_ok(j) by {
                assert(old(self).sig_ok(j));
            }
        }
    }
}

/// Runs a whole pipeline under the in-order schedule: the driver wires and
/// submits each iteration, the runtime completes its four stages, the pool
/// resolves the joined task, and the consumer claims and reports it.  The
/// run ends after the last iteration's report — or at the first failed
/// iteration, after which nothing further is reported.
pub fn run_pipeline(cfg: Config) -> (p: PipelineRun)
    requires
        cfg.valid(),
    ensures
        p.wf(),
        p.cfg == cfg,
        1 <= p.reports@.len() <= cfg.iters,
        forall|j: int| 0 <= j < p.reports@.len() ==> {
            &&& (#[trigger] p.reports@[j]).iteration == j
            &&& p.reports@[j].outcome == spec_verify_outcome(cfg, j)
        },
        forall|j: int| 0 <= j < p.reports@.len() - 1 ==> iteration_ok(cfg, j),
        p.reports@.len() < cfg.iters ==> !iteration_ok(cfg, p.reports@.len() - 1),
        !p.halted ==> p.reports@.len() == cfg.iters && p.consumer_done,
        (forall|i: int| 0 <= i < cfg.iters ==> iteration_ok(cfg, i)) ==> !p.halted
            && p.reports@.len() == cfg.iters,
{
    let mut p = PipelineRun::new(cfg);
    let mut i: usize = 0;
    while i < p.cfg.iters && !p.halted
        invariant
            p.wf(),
            p.cfg == cfg,
            i <= cfg.iters,
            p.enqueued == i,
            p.submitted == i,
            p.claimed == i,
            p.fills_done == i,
            p.writes_done == i,
            p.computes_done == i,
            p.verifies_done == i,
            p.reports@.len() == i,
            !p.end_submitted,
            !p.consumer_done,
        decreases cfg.iters - i,
    {
        p.enqueue_iteration();
        p.complete_fill();
        p.complete_write_init();
        p.complete_compute();
        p.complete_verify();
        p.resolve_task(i);
        p.submit_task();
        p.consumer_claim();
        let _ = p.consumer_report();
        i = i + 1;
    }
    if !p.halted {
        p.submit_end();
        p.consumer_finish();
    }
    proof {
        assert forall|j: int| 0 <= j < p.reports@.len() - 1 implies iteration_ok(p.cfg, j) by {
            assert(p.reports@[j].outcome is Ok);
            assert(p.reports@[j].outcome == spec_verify_outcome(p.cfg, j));
        }
        if p.reports@.len() < p.cfg.iters {
            assert(p.halted);
            assert(p.reports@[p.reports@.len() - 1].outcome is Err);
        }
        if forall|ii: int| 0 <= ii < p.cfg.iters ==> iteration_ok(p.cfg, ii) {
            if p.halted {
                assert(p.reports@[p.reports@.len() - 1].outcome is Err);
                assert(iteration_ok(p.cfg, p.reports@.len() - 1));
            }
        }
    }
    p
}

} // verus!
