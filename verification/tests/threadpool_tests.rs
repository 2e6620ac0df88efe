//! Tests of the worker-pool state model: construction bounds,
//! statistics publication, the worker window step, and
//! statistics-driven resizing.

use dash::threadpool::{worker_window_step, ThreadPool};
use dash::threadpoolerror::ThreadPoolErrorReason;

#[test]
fn oversized_initial_pool_is_refused() {
    let e = ThreadPool::new(20481, 0, 15, 5).unwrap_err();
    assert!(matches!(e.reason, ThreadPoolErrorReason::InvalidPoolSize));
    assert_eq!(e.text(), "ThreadPoolError: InvalidPoolSize");
}

#[test]
fn oversized_upper_bound_is_refused() {
    let e = ThreadPool::new(4, 0, 20481, 5).unwrap_err();
    assert!(matches!(
        e.reason,
        ThreadPoolErrorReason::InvalidDynamicPoolBounds
    ));
}

#[test]
fn fresh_pool_has_sequential_ids_and_no_statistics() {
    let p = ThreadPool::new(4, 0, 15, 5).unwrap();
    assert_eq!(p.worker_count(), 4);
    for i in 0..4 {
        assert_eq!(p.worker_id_at(i), i);
        assert!(!p.worker_stopped(i));
        assert!(p.statistic_at(i).is_none());
    }
}

#[test]
fn statistics_are_published_by_id() {
    let mut p = ThreadPool::new(2, 0, 15, 5).unwrap();
    assert!(p.set_statistic(1, 42));
    assert_eq!(p.statistic_at(1), Some(42));
    assert!(p.statistic_at(0).is_none());
    assert!(!p.set_statistic(7, 1));
}

#[test]
fn resize_sheds_slow_workers_clamped_to_the_minimum() {
    // Four workers; three report five jobs (below the lower bound),
    // one reports fifty (within bounds): the intent to shed three is
    // clamped so the pool does not drop below its minimum of two.
    let mut p = ThreadPool::new(4, 2, 100, 5).unwrap();
    p.set_statistic(0, 5);
    p.set_statistic(1, 5);
    p.set_statistic(2, 5);
    p.set_statistic(3, 50);
    let delta = p.dynamic_resizing(10, 100).unwrap();
    assert_eq!(delta, -2);
    assert_eq!(p.worker_count(), 4);
    assert!(p.worker_stopped(0));
    assert!(p.worker_stopped(1));
    assert!(!p.worker_stopped(2));
    assert!(!p.worker_stopped(3));
}

#[test]
fn resize_grows_on_high_throughput_clamped_to_the_maximum() {
    let mut p = ThreadPool::new(3, 0, 4, 5).unwrap();
    p.set_statistic(0, 500);
    p.set_statistic(1, 500);
    p.set_statistic(2, 500);
    let delta = p.dynamic_resizing(10, 100).unwrap();
    assert_eq!(delta, 1);
    assert_eq!(p.worker_count(), 4);
    assert_eq!(p.worker_id_at(3), 3);
    assert!(!p.worker_stopped(3));
    assert!(p.statistic_at(3).is_none());
}

#[test]
fn resize_without_published_statistics_changes_nothing() {
    let mut p = ThreadPool::new(3, 0, 15, 5).unwrap();
    let delta = p.dynamic_resizing(10, 100).unwrap();
    assert_eq!(delta, 0);
    assert_eq!(p.worker_count(), 3);
}

#[test]
fn resize_keeps_the_pool_within_bounds() {
    let mut p = ThreadPool::new(3, 2, 5, 5).unwrap();
    for round in 0..6 {
        for i in 0..p.worker_count() {
            let id = p.worker_id_at(i);
            p.set_statistic(id, if round % 2 == 0 { 1000 } else { 0 });
        }
        p.dynamic_resizing(10, 100).unwrap();
        assert!(p.worker_count() <= 5);
    }
}

#[test]
fn error_reasons_render_their_names() {
    assert_eq!(
        ThreadPoolErrorReason::Other("queue closed".to_string()).text(),
        "Other: queue closed"
    );
    assert_eq!(
        ThreadPoolErrorReason::DynamicResizingError.text(),
        "DynamicResizingError"
    );
}

#[test]
fn window_step_counts_and_publishes() {
    assert_eq!(worker_window_step(7, 30), (None, 8));
    assert_eq!(worker_window_step(7, 60), (None, 8));
    assert_eq!(worker_window_step(7, 61), (Some(7), 1));
}
