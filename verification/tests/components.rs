//! The components on their own: signals, the bounded queue, the stage
//! work bodies, the dependency table and the configuration check.

use cyclic_pipeline::{
    fill_buffer, kernel_add_values, stage_deps, verify_values, write_init_values, zero_buffer,
    BoundedQueue, Config, PipelineError, Signal, SignalState, Stage, StageDeps, UserDataPh,
};

#[test]
fn signal_lifecycle() {
    let mut s = Signal::empty();
    assert!(matches!(s.current_state(), SignalState::Unset));
    s.bind();
    assert!(matches!(s.current_state(), SignalState::Pending));
    s.complete(5);
    assert!(matches!(s.current_state(), SignalState::Complete));
    assert_eq!(s.completion_tick(), 5);
    assert_eq!(s.completion_status(Stage::Fill), Ok(()));
}

#[test]
fn signal_failure_reports_runtime_error() {
    let mut s = Signal::empty();
    s.bind();
    s.fail(-36, 3);
    assert!(matches!(s.current_state(), SignalState::Error { code: -36 }));
    assert_eq!(s.completion_tick(), 3);
    assert_eq!(
        s.completion_status(Stage::Compute),
        Err(PipelineError::RuntimeOpFailed { operation: Stage::Compute, code: -36 })
    );
}

#[test]
fn callback_on_unbound_signal_is_refused() {
    let mut s = Signal::empty();
    assert_eq!(s.register_callback(UserDataPh(0)), Err(PipelineError::SignalNotBound));
}

#[test]
fn callback_on_pending_or_terminal_signal_is_accepted() {
    let mut s = Signal::empty();
    s.bind();
    assert_eq!(s.register_callback(UserDataPh(1)), Ok(()));
    s.complete(1);
    // Registering on an already-terminal signal fires synchronously and
    // still succeeds.
    assert_eq!(s.register_callback(UserDataPh(2)), Ok(()));
}

#[test]
fn user_data_carries_iteration_index() {
    let d = UserDataPh(7);
    assert_eq!(d.0, 7);
}

#[test]
fn queue_is_fifo() {
    let mut q: BoundedQueue<usize> = BoundedQueue::new(3);
    assert!(q.is_empty());
    assert_eq!(q.submit(10), Ok(()));
    assert_eq!(q.submit(11), Ok(()));
    assert_eq!(q.submit(12), Ok(()));
    assert!(q.is_full());
    assert_eq!(q.len(), 3);
    assert_eq!(q.claim(), Some(10));
    assert_eq!(q.claim(), Some(11));
    assert_eq!(q.claim(), Some(12));
    assert_eq!(q.claim(), None);
}

#[test]
fn closed_queue_refuses_submission() {
    let mut q: BoundedQueue<usize> = BoundedQueue::new(2);
    assert_eq!(q.submit(1), Ok(()));
    q.close();
    assert!(q.closed());
    assert_eq!(q.submit(2), Err(PipelineError::QueueClosed));
    // Claiming still drains what was submitted before the close.
    assert_eq!(q.claim(), Some(1));
    assert_eq!(q.claim(), None);
}

#[test]
fn dependency_table_matches_design() {
    assert_eq!(
        stage_deps(Stage::Fill),
        StageDeps { same_iter: None, prev_iter: Some(Stage::Compute) }
    );
    assert_eq!(
        stage_deps(Stage::WriteInit),
        StageDeps { same_iter: Some(Stage::Fill), prev_iter: None }
    );
    assert_eq!(
        stage_deps(Stage::Compute),
        StageDeps { same_iter: Some(Stage::WriteInit), prev_iter: Some(Stage::Verify) }
    );
    assert_eq!(
        stage_deps(Stage::Verify),
        StageDeps { same_iter: Some(Stage::Compute), prev_iter: None }
    );
}

#[test]
fn stage_bodies_compute_exact_values() {
    let mut buf = zero_buffer(4);
    assert_eq!(buf, vec![0, 0, 0, 0]);
    fill_buffer(&mut buf, -999);
    assert_eq!(buf, vec![-999, -999, -999, -999]);
    write_init_values(&mut buf, 50);
    assert_eq!(buf, vec![50, 50, 50, 50]);
    let mut dst = zero_buffer(4);
    kernel_add_values(&buf, 100, &mut dst);
    assert_eq!(dst, vec![150, 150, 150, 150]);
}

#[test]
fn verify_scan_finds_first_mismatch() {
    let buf = vec![150, 150, 150];
    assert_eq!(verify_values(&buf, 150, 4), Ok(3));
    let bad_tail = vec![150, 150, 7];
    assert_eq!(
        verify_values(&bad_tail, 150, 4),
        Err(PipelineError::Mismatch { iteration: 4, index: 2, expected: 150, actual: 7 })
    );
    let bad_head = vec![7, 150, 8];
    assert_eq!(
        verify_values(&bad_head, 150, 0),
        Err(PipelineError::Mismatch { iteration: 0, index: 0, expected: 150, actual: 7 })
    );
    let empty: Vec<i64> = vec![];
    assert_eq!(verify_values(&empty, 150, 1), Ok(0));
}

#[test]
fn fatal_errors_are_told_apart_from_mismatches() {
    let fatal = PipelineError::RuntimeOpFailed { operation: Stage::Fill, code: -5 };
    assert!(fatal.is_fatal());
    assert!(PipelineError::SignalNotBound.is_fatal());
    assert!(PipelineError::QueueClosed.is_fatal());
    let mismatch = PipelineError::Mismatch { iteration: 1, index: 0, expected: 1, actual: 2 };
    assert!(!mismatch.is_fatal());
}

#[test]
fn config_check_accepts_and_refuses() {
    let good = Config::uniform(16, 3, 2, -999, 50, 100);
    assert!(good.check());
    let no_elems = Config { elem_count: 0, ..Config::uniform(1, 1, 2, 0, 0, 0) };
    assert!(!no_elems.check());
    let no_iters = Config { iters: 0, ..Config::uniform(1, 1, 2, 0, 0, 0) };
    assert!(!no_iters.check());
    let tiny_queue = Config { capacity: 1, ..Config::uniform(1, 1, 2, 0, 0, 0) };
    assert!(!tiny_queue.check());
    let wrong_expected_len =
        Config { expected: vec![0, 0], ..Config::uniform(1, 1, 2, 0, 0, 0) };
    assert!(!wrong_expected_len.check());
    let scalar_too_big = Config { write_val: 0x8000_0000, ..Config::uniform(1, 1, 2, 0, 0, 0) };
    assert!(!scalar_too_big.check());
}
