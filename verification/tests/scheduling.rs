//! Adversarial schedules driven through the step API: backpressure,
//! reporting order under out-of-order task resolution, and the
//! cross-iteration gate observed through the logical counter.

use cyclic_pipeline::{run_pipeline, Config, PipelineRun, Stage, WaitRef};

/// Backpressure: with capacity 2 and 10 iterations, and a consumer that
/// only drains when the driver is blocked, the outstanding-task count
/// never exceeds 2.
#[test]
fn backpressure_bounds_outstanding_tasks() {
    let cfg = Config::uniform(4, 10, 2, -999, 50, 100);
    let mut p = PipelineRun::new(cfg);
    let mut max_outstanding: usize = 0;
    let mut observe = |p: &PipelineRun, max_outstanding: &mut usize| {
        let len = p.queue.len();
        assert!(len <= 2);
        if len > *max_outstanding {
            *max_outstanding = len;
        }
    };
    for i in 0..10 {
        p.enqueue_iteration();
        observe(&p, &mut max_outstanding);
        assert!(p.stage_is_ready(Stage::Fill));
        p.complete_fill();
        assert!(p.stage_is_ready(Stage::WriteInit));
        p.complete_write_init();
        assert!(p.stage_is_ready(Stage::Compute));
        p.complete_compute();
        assert!(p.stage_is_ready(Stage::Verify));
        p.complete_verify();
        p.resolve_task(i);
        observe(&p, &mut max_outstanding);
        // The driver blocks while the queue is full; the consumer then
        // claims and reports one task to make room.
        while p.queue.len() == 2 {
            p.consumer_claim();
            let rep = p.consumer_report();
            assert_eq!(rep.outcome, Ok(4));
            observe(&p, &mut max_outstanding);
        }
        p.submit_task();
        observe(&p, &mut max_outstanding);
    }
    p.submit_end();
    while p.reports.len() < 10 {
        p.consumer_claim();
        let rep = p.consumer_report();
        assert!(rep.outcome.is_ok());
        observe(&p, &mut max_outstanding);
    }
    p.consumer_finish();
    assert_eq!(max_outstanding, 2);
    assert_eq!(p.reports.len(), 10);
}

/// Ordering: iteration 1's joined task resolves only after iteration 2's,
/// yet the consumer still reports [0, 1, 2].
#[test]
fn reports_stay_in_submission_order() {
    let cfg = Config::uniform(8, 3, 2, -999, 50, 100);
    let mut p = PipelineRun::new(cfg);
    // The driver wires and submits iterations 0 and 1, wires iteration 2,
    // and is then blocked on the full queue.
    p.enqueue_iteration();
    p.submit_task();
    p.enqueue_iteration();
    p.submit_task();
    p.enqueue_iteration();
    // The runtime completes every stage of all three iterations.
    for _ in 0..3 {
        p.complete_fill();
        p.complete_write_init();
        p.complete_compute();
        p.complete_verify();
    }
    // The worker pool resolves the joined tasks out of order: 2, then 1,
    // then 0.
    p.resolve_task(2);
    p.resolve_task(1);
    p.resolve_task(0);
    // The consumer drains the FIFO; the driver submits task 2 once room
    // appears.
    p.consumer_claim();
    let r0 = p.consumer_report();
    p.submit_task();
    p.consumer_claim();
    let r1 = p.consumer_report();
    p.consumer_claim();
    let r2 = p.consumer_report();
    assert_eq!(r0.iteration, 0);
    assert_eq!(r1.iteration, 1);
    assert_eq!(r2.iteration, 2);
    assert_eq!(vec![r0.outcome, r1.outcome, r2.outcome], vec![Ok(8), Ok(8), Ok(8)]);
    p.submit_end();
    p.consumer_finish();
    assert!(p.consumer_done);
}

/// Cross-iteration dependency: each kernel start's recorded counter value
/// is at least the counter recorded at the previous iteration's Verify
/// unmap terminal transition.
#[test]
fn compute_start_after_previous_verify_unmap() {
    let cfg = Config::uniform(4, 5, 2, -999, 50, 100);
    let p = run_pipeline(cfg);
    assert_eq!(p.sigs.len(), 5);
    for i in 1..5 {
        let start = p.sigs[i].compute_start_stamp;
        let prev_verify = p.sigs[i - 1].verify_unmap.completion_tick();
        assert!(prev_verify >= 1);
        assert!(start >= prev_verify);
    }
    // Within one iteration the terminal ticks follow the wait lists.
    for i in 0..5 {
        let b = &p.sigs[i];
        assert!(b.write_unmap.completion_tick() > b.fill.completion_tick());
        assert!(b.compute.completion_tick() > b.compute_start_stamp);
        assert!(b.compute_start_stamp >= b.write_unmap.completion_tick());
        assert!(b.verify_unmap.completion_tick() > b.compute.completion_tick());
        if i >= 1 {
            assert!(b.fill.completion_tick() > p.sigs[i - 1].compute.completion_tick());
        }
    }
}

/// The logical counter counts terminal transitions: four per iteration.
#[test]
fn tick_counter_counts_terminal_transitions() {
    let cfg = Config::uniform(2, 4, 2, -999, 50, 100);
    let p = run_pipeline(cfg);
    assert_eq!(p.ticks, 16);
}

/// The wait lists are rebuilt each iteration from exactly the signals the
/// dependency rules require: no cross-iteration waits at iteration 0, the
/// previous Verify unmap and the current Write-Init unmap for Compute
/// afterwards.
#[test]
fn wait_lists_follow_dependency_rules() {
    let cfg = Config::uniform(4, 3, 2, -999, 50, 100);
    let mut p = PipelineRun::new(cfg);
    p.enqueue_iteration();
    assert_eq!(p.build_wait_list(Stage::Fill), vec![]);
    assert_eq!(
        p.build_wait_list(Stage::WriteInit),
        vec![WaitRef { iteration: 0, stage: Stage::Fill }]
    );
    assert_eq!(
        p.build_wait_list(Stage::Compute),
        vec![WaitRef { iteration: 0, stage: Stage::WriteInit }]
    );
    assert_eq!(
        p.build_wait_list(Stage::Verify),
        vec![WaitRef { iteration: 0, stage: Stage::Compute }]
    );
    p.complete_fill();
    p.complete_write_init();
    p.complete_compute();
    p.complete_verify();
    p.resolve_task(0);
    p.submit_task();
    p.enqueue_iteration();
    assert_eq!(
        p.build_wait_list(Stage::Fill),
        vec![WaitRef { iteration: 0, stage: Stage::Compute }]
    );
    assert_eq!(
        p.build_wait_list(Stage::Compute),
        vec![
            WaitRef { iteration: 0, stage: Stage::Verify },
            WaitRef { iteration: 1, stage: Stage::WriteInit },
        ]
    );
    // An operation may start exactly when its wait list is complete:
    // iteration 1's Fill is ready (Compute(0) is done), its Write-Init is
    // not (Fill(1) has not run).
    assert!(p.stage_is_ready(Stage::Fill));
    assert!(!p.stage_is_ready(Stage::WriteInit));
}
