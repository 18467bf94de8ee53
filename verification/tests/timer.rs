use std::time::Duration;

use malen::gl::timer::{timing_stats, MAX_POLL_QUERIES};
use malen::gl::{DrawTimer, FrameTimer};

#[test]
fn frame_timer_measures_draws() {
    let mut t: FrameTimer<u32> = FrameTimer::new(2, true);
    assert!(t.start_draw());
    t.query_begun(7);
    assert_eq!(t.end_draw(), Some(7));
    assert_eq!(t.pending_query(), Some(7));
    assert!(!t.start_draw());
    assert_eq!(t.record_sample(100), 7);
    assert_eq!(t.pending_query(), None);
    for (q, nanos) in [(8, 300), (9, 50)] {
        assert!(t.start_draw());
        t.query_begun(q);
        assert_eq!(t.end_draw(), Some(q));
        assert_eq!(t.record_sample(nanos), q);
    }
    let info = t.timing_info().unwrap();
    assert_eq!(info.num_samples, 2);
    assert_eq!(info.min, Duration::from_nanos(50));
    assert_eq!(info.max, Duration::from_nanos(300));
    assert_eq!(info.average, Duration::from_nanos(175));
}

#[test]
fn frame_timer_without_support() {
    let mut t: FrameTimer<u32> = FrameTimer::new(4, false);
    assert!(!t.start_draw());
    assert_eq!(t.end_draw(), None);
    assert_eq!(t.pending_query(), None);
    assert!(t.timing_info().is_none());
}

#[test]
fn frame_timer_bounds_waiting_queries() {
    let mut t: FrameTimer<u32> = FrameTimer::new(1, true);
    t.query_begun(1);
    assert_eq!(t.end_draw(), Some(1));
    assert_eq!(t.end_draw(), None);
    assert_eq!(t.pending_query(), Some(1));
}

#[test]
fn stats_round_mean_down() {
    let s = timing_stats(&vec![1, 2]);
    assert_eq!((s.num_samples, s.average_nanos, s.min_nanos, s.max_nanos), (2, 1, 1, 2));
    let s = timing_stats(&vec![u64::MAX, u64::MAX]);
    assert_eq!(s.average_nanos, u64::MAX);
}

#[test]
fn draw_timer_prunes_old_samples() {
    let mut t: DrawTimer<u32> = DrawTimer::new(1000, true);
    for (time, q, nanos) in [(0u64, 1u32, 10u32), (500, 2, 20), (1200, 3, 30)] {
        assert!(t.start_draw());
        t.query_begun(time, q);
        assert_eq!(t.end_draw(), Some(q));
        assert_eq!(t.record_sample(nanos), q);
    }
    let samples: Vec<(u64, u64)> = t.samples().iter().copied().collect();
    assert_eq!(samples, vec![(500, 20), (1200, 30)]);
    let info = t.timing_info().unwrap();
    assert_eq!(info.num_samples, 2);
    assert_eq!(info.average, Duration::from_nanos(25));
    t.query_begun(5000, 4);
    assert!(t.samples().is_empty());
    assert_eq!(MAX_POLL_QUERIES, 100);
}

#[test]
fn timers_report_waiting_queries() {
    let mut t: FrameTimer<u32> = FrameTimer::new(3, true);
    assert!(!t.is_measuring());
    t.query_begun(1);
    assert!(t.is_measuring());
    assert_eq!(t.end_draw(), Some(1));
    assert!(!t.is_measuring());
    assert_eq!(t.waiting_queries(), vec![1]);

    let mut d: DrawTimer<u32> = DrawTimer::new(1_000, true);
    d.query_begun(10, 4);
    assert!(d.is_measuring());
    assert_eq!(d.end_draw(), Some(4));
    assert_eq!(d.waiting_queries(), vec![4]);
    assert_eq!(d.record_sample(25), 4);
    assert!(d.waiting_queries().is_empty());
}

#[test]
fn average_lies_between_min_and_max() {
    let s = timing_stats(&vec![7, 3, 12, 3, 9]);
    assert_eq!((s.min_nanos, s.max_nanos, s.average_nanos), (3, 12, 6));
    assert!(s.min_nanos <= s.average_nanos && s.average_nanos <= s.max_nanos);
    let s = timing_stats(&vec![42]);
    assert_eq!((s.min_nanos, s.average_nanos, s.max_nanos), (42, 42, 42));
}

#[test]
fn polling_stops_at_an_unavailable_result() {
    let mut t: FrameTimer<u32> = FrameTimer::new(4, true);
    t.query_begun(5);
    assert_eq!(t.end_draw(), Some(5));
    assert_eq!(t.poll_result(0), None);
    assert_eq!(t.pending_query(), Some(5));
    assert!(t.timing_info().is_none());
    assert_eq!(t.poll_result(40), Some(5));
    assert_eq!(t.pending_query(), None);
    assert_eq!(t.timing_info().unwrap().num_samples, 1);

    let mut d: DrawTimer<u32> = DrawTimer::new(1000, true);
    d.query_begun(3, 8);
    assert_eq!(d.end_draw(), Some(8));
    assert_eq!(d.poll_result(0), None);
    assert!(d.samples().is_empty());
    assert_eq!(d.poll_result(12), Some(8));
    let samples: Vec<(u64, u64)> = d.samples().iter().copied().collect();
    assert_eq!(samples, vec![(3, 12)]);
}
