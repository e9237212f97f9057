use dawr::events::EventSource;

#[test]
fn is_sorted_accepts_empty_and_sorted() {
    let empty: Vec<(u64, u32)> = Vec::new();
    assert!(EventSource::is_sorted(&empty));
    let sorted: Vec<(u64, u32)> = vec![(0, 1), (5, 2), (5, 3), (9, 4)];
    assert!(EventSource::is_sorted(&sorted));
}

#[test]
fn is_sorted_rejects_out_of_order() {
    let unsorted: Vec<(u64, u32)> = vec![(5, 1), (3, 2)];
    assert!(!EventSource::is_sorted(&unsorted));
    let late_violation: Vec<(u64, u32)> = vec![(0, 1), (7, 2), (6, 3)];
    assert!(!EventSource::is_sorted(&late_violation));
}

#[test]
fn windowing_returns_events_of_each_chunk() {
    // Events at 0, 100 and 250 with a chunk size of 128: the first
    // window holds the first two, the window at 128 holds the third,
    // since 250 lies in [128, 256).
    let events: Vec<(u64, u32)> = vec![(0, 10), (100, 20), (250, 30)];
    let mut source = EventSource::new(events);
    let (start, end) = source.events_this_chunk(0);
    assert_eq!((start, end), (0, 2));
    assert_eq!(source.event_at(start), (0, 10));
    assert_eq!(source.event_at(start + 1), (100, 20));
    let (start, end) = source.events_this_chunk(128);
    assert_eq!((start, end), (2, 3));
    assert_eq!(source.event_at(start), (250, 30));
    let (start, end) = source.events_this_chunk(256);
    assert_eq!(start, end);
}

#[test]
fn repeated_queries_return_the_identical_window() {
    let events: Vec<(u64, u32)> = vec![(0, 1), (100, 2), (250, 3)];
    let mut source = EventSource::new(events);
    let first = source.events_this_chunk(0);
    let second = source.events_this_chunk(0);
    assert_eq!(first, second);
}

#[test]
fn copy_window_hands_out_the_events() {
    let events: Vec<(u64, u32)> = vec![(3, 7), (100, 8), (500, 9)];
    let mut source = EventSource::new(events);
    let (start, end) = source.events_this_chunk(0);
    let window = source.copy_window(start, end);
    assert_eq!(window, vec![(3, 7), (100, 8)]);
}

#[test]
fn events_before_the_queried_time_are_skipped() {
    let events: Vec<(u64, u32)> = vec![(0, 1), (1, 2), (300, 3)];
    let mut source = EventSource::new(events);
    // First query happens late: the stale leading events are skipped.
    let (start, end) = source.events_this_chunk(256);
    assert_eq!((start, end), (2, 3));
}
