use boss_rush::progress::ProgressTracker;
use boss_rush::rational::Q;

#[test]
fn four_items_gate_fires_exactly_once() {
    let mut tracker = ProgressTracker::new();
    for id in 0..4u64 {
        assert!(tracker.track(id));
    }
    let mut fires = 0;
    // Polled every frame while items resolve across different frames.
    for id in 0..4u64 {
        if tracker.poll_gate() {
            fires += 1;
        }
        assert!(tracker.mark_ready(id));
    }
    // The frame the fourth item resolves.
    if tracker.poll_gate() {
        fires += 1;
    }
    // Many more polls after completion.
    for _ in 0..10 {
        if tracker.poll_gate() {
            fires += 1;
        }
        assert!(tracker.is_complete());
    }
    assert_eq!(fires, 1);
}

#[test]
fn fraction_is_monotonically_non_decreasing() {
    let mut tracker = ProgressTracker::new();
    for id in 0..5u64 {
        tracker.track(id);
    }
    let mut last = tracker.fraction();
    for id in 0..5u64 {
        if id % 2 == 0 {
            tracker.mark_ready(id);
        } else {
            tracker.mark_failed(id);
        }
        let now = tracker.fraction();
        assert!(last.le(&now));
        last = now;
    }
}

#[test]
fn failed_items_resolve_but_do_not_count_ready() {
    let mut tracker = ProgressTracker::new();
    tracker.track(1);
    tracker.track(2);
    assert!(!tracker.is_complete());
    tracker.mark_ready(1);
    assert!(!tracker.is_complete());
    tracker.mark_failed(2);
    assert!(tracker.is_complete());
    assert!(tracker.fraction().eq_q(&Q::new(1, 2)));
}

#[test]
fn empty_tracker_is_complete_with_full_fraction() {
    let mut tracker = ProgressTracker::new();
    assert!(tracker.is_complete());
    assert!(tracker.fraction().eq_q(&Q::one()));
    assert!(tracker.poll_gate());
    assert!(!tracker.poll_gate());
}

#[test]
fn duplicate_track_is_ignored() {
    let mut tracker = ProgressTracker::new();
    assert!(tracker.track(7));
    assert!(!tracker.track(7));
    assert!(tracker.items.len() == 1);
}

#[test]
fn resolving_unknown_or_resolved_items_changes_nothing() {
    let mut tracker = ProgressTracker::new();
    tracker.track(7);
    assert!(!tracker.mark_ready(8));
    assert!(tracker.mark_ready(7));
    assert!(!tracker.mark_ready(7));
    assert!(!tracker.mark_failed(7));
    assert!(tracker.fraction().eq_q(&Q::one()));
}
