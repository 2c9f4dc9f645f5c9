use v9_worker::stats::{latency_buckets, StatTracker};

fn means(buckets: &[v9_worker::model::LatencyBucket]) -> Vec<f64> {
    buckets.iter().map(|b| b.total_ms as f64 / b.count as f64).collect()
}

#[test]
fn percentiles_of_one_to_hundred() {
    let sorted: Vec<u32> = (1..=100).collect();
    let buckets = latency_buckets(&sorted);
    assert_eq!(means(&buckets), vec![5.5, 15.5, 25.5, 35.5, 45.5, 55.5, 65.5, 75.5, 85.5, 95.5]);
}

#[test]
fn percentiles_through_tracker_sort_unsorted_input() {
    let mut t = StatTracker::new();
    for d in (1..=100u32).rev() {
        t.add_stat_event(1_000, d, 7);
    }
    let s = t.get_component_stats(1_000);
    assert_eq!(s.hits, 100);
    assert_eq!(s.total_ms_latency, 5050);
    assert_eq!(s.total_response_bytes, 700);
    assert_eq!(means(&s.ms_latency_percentiles), vec![5.5, 15.5, 25.5, 35.5, 45.5, 55.5, 65.5, 75.5, 85.5, 95.5]);
}

#[test]
fn uneven_buckets_give_extra_items_to_the_first() {
    let sorted: Vec<u32> = (1..=13).collect();
    let buckets = latency_buckets(&sorted);
    let counts: Vec<u64> = buckets.iter().map(|b| b.count).collect();
    assert_eq!(counts, vec![2, 2, 2, 1, 1, 1, 1, 1, 1, 1]);
    assert_eq!(buckets[0].total_ms, 3);
    assert_eq!(buckets[1].total_ms, 7);
    assert_eq!(buckets[3].total_ms, 7);
}

#[test]
fn fewer_items_than_buckets_skip_empty_ones() {
    let sorted: Vec<u32> = vec![4, 9, 30];
    let buckets = latency_buckets(&sorted);
    assert_eq!(buckets.len(), 3);
    assert_eq!(means(&buckets), vec![4.0, 9.0, 30.0]);
}

#[test]
fn empty_tracker_reports_zero() {
    let mut t = StatTracker::new();
    let s = t.get_component_stats(50);
    assert_eq!(s.hits, 0);
    assert_eq!(s.total_ms_latency, 0);
    assert_eq!(s.total_response_bytes, 0);
    assert!(s.ms_latency_percentiles.is_empty());
    assert_eq!(s.stat_window_seconds, 300);
}

#[test]
fn events_older_than_window_are_pruned() {
    let w: u64 = 300_000;
    let t0: u64 = 10_000_000;
    let mut t = StatTracker::new();
    t.add_stat_event(t0 - w - 1_000, 10, 1);
    t.add_stat_event(t0 - w - 1_000, 20, 1);
    t.add_stat_event(t0 - w + 5_000, 30, 1);
    t.add_stat_event(t0 - 1, 40, 1);
    let s = t.get_component_stats(t0);
    assert_eq!(s.hits, 2);
    assert_eq!(s.total_ms_latency, 70);
}

#[test]
fn event_at_window_edge_is_kept() {
    let mut t = StatTracker::with_window(1_000);
    t.add_stat_event(5_000, 1, 1);
    let s = t.get_component_stats(6_000);
    assert_eq!(s.hits, 1);
    let s = t.get_component_stats(6_001);
    assert_eq!(s.hits, 0);
    assert_eq!(s.stat_window_seconds, 1);
}

#[test]
fn window_larger_than_clock_keeps_everything() {
    let mut t = StatTracker::new();
    t.add_stat_event(0, 3, 4);
    t.pop_old_events(10);
    let s = t.get_component_stats(20);
    assert_eq!(s.hits, 1);
}

#[test]
fn default_tracker_has_five_minute_window() {
    let mut t = StatTracker::default();
    assert_eq!(t.get_component_stats(0).stat_window_seconds, 300);
    assert_eq!(t.color(), None);
}
