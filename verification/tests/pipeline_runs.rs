//! Whole-run behaviour: round trips, the error path, and the smallest runs.

use cyclic_pipeline::{run_pipeline, Config, PipelineError};

/// Round trip, concrete case: 16 elements, 3 iterations, write value 50,
/// addend 100: every verified element is 150 and all three iterations
/// report the full element count, in order.
#[test]
fn round_trip_three_iterations() {
    let cfg = Config::uniform(16, 3, 2, -999, 50, 100);
    assert!(cfg.check());
    let p = run_pipeline(cfg);
    assert!(!p.halted);
    assert!(p.consumer_done);
    assert_eq!(p.reports.len(), 3);
    for (j, rep) in p.reports.iter().enumerate() {
        assert_eq!(rep.iteration, j);
        assert_eq!(rep.outcome, Ok(16));
    }
    assert_eq!(p.dst.len(), 16);
    for v in p.dst.iter() {
        assert_eq!(*v, 150);
    }
}

/// The smallest run the configuration allows: one element, one iteration.
#[test]
fn smallest_run() {
    let cfg = Config::uniform(1, 1, 2, -999, 50, 100);
    let p = run_pipeline(cfg);
    assert!(!p.halted);
    assert_eq!(p.reports.len(), 1);
    assert_eq!(p.reports[0].iteration, 0);
    assert_eq!(p.reports[0].outcome, Ok(1));
    assert_eq!(p.dst[0], 150);
}

/// Negative scalars round-trip too.
#[test]
fn negative_values_run() {
    let cfg = Config::uniform(5, 2, 2, -1, -50, 30);
    let p = run_pipeline(cfg);
    assert!(!p.halted);
    assert_eq!(p.reports.len(), 2);
    assert_eq!(p.reports[0].outcome, Ok(5));
    assert_eq!(p.reports[1].outcome, Ok(5));
    for v in p.dst.iter() {
        assert_eq!(*v, -20);
    }
}

/// Scalars at the edge of the 32-bit lane range: the sum still fits the
/// model's cells.
#[test]
fn extreme_scalars_run() {
    let cfg = Config::uniform(2, 1, 2, -0x8000_0000, 0x7fff_ffff, 0x7fff_ffff);
    let p = run_pipeline(cfg);
    assert!(!p.halted);
    assert_eq!(p.reports.len(), 1);
    assert_eq!(p.reports[0].outcome, Ok(2));
    assert_eq!(p.dst[0], 0x7fff_ffff_i64 + 0x7fff_ffff_i64);
}

/// Error path: the expected value is wrong for iteration 2 only.  The run
/// reports the exact mismatch — iteration 2, element 0, the injected
/// expectation against the computed 150 — and reports nothing for
/// iteration 3 or later.
#[test]
fn mismatch_halts_consumption() {
    let cfg = Config {
        elem_count: 16,
        iters: 5,
        capacity: 2,
        fill_sentinel: -999,
        write_val: 50,
        addend: 100,
        expected: vec![150, 150, 99, 150, 150],
    };
    assert!(cfg.check());
    let p = run_pipeline(cfg);
    assert!(p.halted);
    assert!(!p.consumer_done);
    assert_eq!(p.reports.len(), 3);
    assert_eq!(p.reports[0].outcome, Ok(16));
    assert_eq!(p.reports[1].outcome, Ok(16));
    assert_eq!(p.reports[2].iteration, 2);
    assert_eq!(
        p.reports[2].outcome,
        Err(PipelineError::Mismatch { iteration: 2, index: 0, expected: 99, actual: 150 })
    );
}

/// A mismatch on the very first iteration yields exactly one report.
#[test]
fn mismatch_on_first_iteration() {
    let cfg = Config {
        elem_count: 4,
        iters: 3,
        capacity: 2,
        fill_sentinel: -999,
        write_val: 1,
        addend: 2,
        expected: vec![7, 3, 3],
    };
    assert!(cfg.check());
    let p = run_pipeline(cfg);
    assert!(p.halted);
    assert_eq!(p.reports.len(), 1);
    assert_eq!(
        p.reports[0].outcome,
        Err(PipelineError::Mismatch { iteration: 0, index: 0, expected: 7, actual: 3 })
    );
}

/// A mismatch on the last iteration still reports every earlier iteration.
#[test]
fn mismatch_on_last_iteration() {
    let cfg = Config {
        elem_count: 3,
        iters: 3,
        capacity: 2,
        fill_sentinel: 0,
        write_val: 10,
        addend: 5,
        expected: vec![15, 15, 16],
    };
    let p = run_pipeline(cfg);
    assert!(p.halted);
    assert_eq!(p.reports.len(), 3);
    assert_eq!(p.reports[0].outcome, Ok(3));
    assert_eq!(p.reports[1].outcome, Ok(3));
    assert_eq!(
        p.reports[2].outcome,
        Err(PipelineError::Mismatch { iteration: 2, index: 0, expected: 16, actual: 15 })
    );
}
