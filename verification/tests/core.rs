use radico::feeder::{feed_all, feed_segment};
use radico::pacing::StateCollector;
use radico::queue::{accept, Playlist, SegmentQueue};
use radico::ring::StreamPipe;
use radico::timer::HalfSleep;
use radico::timestamp::Timestamp;

fn ts(year: u16, month: u8, day: u8, hour: u8, minute: u8, second: u8) -> Timestamp {
    Timestamp { year, month, day, hour, minute, second }
}

#[test]
fn pipe_read_returns_fifo_prefix() {
    let mut pipe = StreamPipe::new();
    pipe.add(&[1, 2, 3, 4, 5]);
    let first = pipe.read(2);
    assert_eq!(first, vec![1, 2]);
    let rest = pipe.read(100);
    assert_eq!(rest, vec![3, 4, 5]);
    assert_eq!(pipe.len(), 0);
}

#[test]
fn pipe_read_on_empty_returns_zero_bytes() {
    let mut pipe = StreamPipe::new();
    assert_eq!(pipe.read(64), Vec::<u8>::new());
    pipe.add(&[9]);
    let _ = pipe.read(1);
    assert_eq!(pipe.read(1), Vec::<u8>::new());
}

#[test]
fn pipe_total_read_never_exceeds_appended() {
    let mut pipe = StreamPipe::new();
    let mut appended = 0usize;
    let mut read = 0usize;
    for round in 0..10usize {
        let chunk = vec![round as u8; round + 1];
        appended += chunk.len();
        pipe.add(&chunk);
        read += pipe.read(round).len();
        assert!(read <= appended);
    }
    read += pipe.read(usize::MAX).len();
    assert_eq!(read, appended);
}

#[test]
fn pipe_clear_drops_everything() {
    let mut pipe = StreamPipe::new();
    pipe.add(&[1, 2, 3]);
    pipe.clear();
    assert_eq!(pipe.len(), 0);
    assert_eq!(pipe.read(10), Vec::<u8>::new());
}

#[test]
fn pacing_default_until_four_samples() {
    let mut stat = StateCollector::new();
    assert_eq!(stat.delay(), 5000);
    stat.add(100_000, 0);
    stat.add(100_000, 0);
    stat.add(100_000, 0);
    assert_eq!(stat.delay(), 5000);
}

#[test]
fn pacing_window_keeps_latest_four() {
    let mut stat = StateCollector::new();
    // An enormous first sample must be evicted by the four that follow.
    stat.add(1_000_000_000, 1_000_000_000);
    for _ in 0..4 {
        stat.add(100_000, 0);
    }
    // raw = 5 * 400_000 + 31 * 0 - 682_000 = 1_318_000; delay = 1_318_000 / 124.
    assert_eq!(stat.delay(), 10629);
}

#[test]
fn pacing_delay_clamped_to_zero_on_pathological_samples() {
    let mut stat = StateCollector::new();
    for _ in 0..4 {
        stat.add(-1_000_000_000_000_000, -1_000_000_000_000_000);
    }
    assert_eq!(stat.delay(), 0);
    let mut oversupplied = StateCollector::new();
    for _ in 0..4 {
        // Oversupplied buffer, fresh segments: the raw formula is negative.
        stat.add(1000, 0);
        oversupplied.add(1000, 0);
    }
    assert_eq!(oversupplied.delay(), 0);
}

#[test]
fn pacing_reset_fills_window() {
    let mut stat = StateCollector::new();
    stat.reset(100_000, 0);
    assert_eq!(stat.delay(), 10629);
}

#[test]
fn timer_starts_expired() {
    let mut timer = HalfSleep::new();
    assert!(timer.poll(0, 1));
    assert!(timer.poll(12345, 2));
}

#[test]
fn timer_wake_releases_all_waiters_together() {
    let mut timer = HalfSleep::new();
    let released = timer.set(1000, 5000);
    assert_eq!(released, Vec::<u64>::new());
    assert!(!timer.poll(2000, 7));
    assert!(!timer.poll(2500, 8));
    // Both concurrent waiters leave in the same batch: never a subset.
    let released = timer.wake(3000);
    assert_eq!(released, vec![7, 8]);
    // The deadline moved to the wake instant, so the released sleeps
    // resolve at their very next poll.
    assert!(timer.poll(3000, 7));
    assert!(timer.poll(3001, 8));
}

#[test]
fn timer_set_rearms_for_released_waiters() {
    let mut timer = HalfSleep::new();
    let _ = timer.set(0, 100);
    assert!(!timer.poll(50, 1));
    let released = timer.set(50, 100);
    assert_eq!(released, vec![1]);
    // The released waiter picks up the new deadline, not a second release.
    assert!(!timer.poll(100, 1));
    assert!(timer.poll(150, 1));
}

#[test]
fn queue_rejects_duplicates_and_regressions() {
    let mut q = SegmentQueue::new();
    let t1 = ts(2024, 1, 1, 0, 0, 0);
    let t2 = ts(2024, 1, 1, 0, 5, 0);
    assert!(q.try_push(Playlist { url: String::from("a"), buf: vec![1] }, t2));
    assert!(!q.try_push(Playlist { url: String::from("b"), buf: vec![2] }, t2));
    assert!(!q.try_push(Playlist { url: String::from("c"), buf: vec![3] }, t1));
    assert_eq!(q.len(), 1);
}

#[test]
fn queue_drain_hands_out_everything_in_order() {
    let mut q = SegmentQueue::new();
    let t1 = ts(2024, 1, 1, 0, 0, 0);
    let t2 = ts(2024, 1, 1, 0, 5, 0);
    assert!(q.try_push(Playlist { url: String::from("a"), buf: vec![1] }, t1));
    assert!(q.try_push(Playlist { url: String::from("b"), buf: vec![2] }, t2));
    let drained = q.drain();
    assert_eq!(q.len(), 0);
    assert_eq!(drained.len(), 2);
    assert!(drained[0].stamp.key() < drained[1].stamp.key());
    // The cursor survives the drain: an old stamp still does not re-enter.
    assert!(!q.try_push(Playlist { url: String::from("c"), buf: vec![3] }, t1));
}

#[test]
fn station_switch_discards_stale_generations() {
    let mut q = SegmentQueue::new();
    let t1 = ts(2024, 1, 1, 0, 0, 0);
    let t2 = ts(2024, 1, 1, 0, 5, 0);
    assert!(q.try_push(Playlist { url: String::from("a"), buf: vec![1, 1] }, t1));
    assert!(q.try_push(Playlist { url: String::from("b"), buf: vec![2, 2] }, t2));
    // The feeder drained the backlog, then a station switch lands before
    // the segments reach the ring buffer.
    let stale = q.drain();
    q.switch_station();
    let gen = q.generation();
    let mut pipe = StreamPipe::new();
    let mut stat = StateCollector::new();
    for seg in &stale {
        assert!(!accept(seg, gen));
        assert!(!feed_segment(&mut pipe, &mut stat, seg, 1_700_000_000_000, gen));
    }
    // Nothing from the old station reached the buffer.
    assert_eq!(pipe.len(), 0);
    // The cursor was reset: the new session accepts fresh stamps again.
    assert!(q.try_push(Playlist { url: String::from("a2"), buf: vec![7] }, t1));
    let fresh = q.drain();
    assert!(feed_segment(&mut pipe, &mut stat, &fresh[0], 1_700_000_000_000, gen));
    assert_eq!(pipe.len(), 1);
}

#[test]
fn feeder_records_occupancy_and_latency() {
    let mut q = SegmentQueue::new();
    let stamp = ts(1970, 1, 1, 0, 0, 0);
    assert!(q.try_push(Playlist { url: String::from("a"), buf: vec![1, 2, 3] }, stamp));
    let segs = q.drain();
    let mut pipe = StreamPipe::new();
    let mut stat = StateCollector::new();
    assert!(feed_segment(&mut pipe, &mut stat, &segs[0], 4000, q.generation()));
    assert_eq!(pipe.len(), 3);
    // One sample recorded; three more make the window meaningful:
    // each (occupancy 3, latency 4000 - 0).
    assert!(feed_segment(&mut pipe, &mut stat, &segs[0], 4000, 99) == false);
    assert_eq!(pipe.len(), 3);
}

#[test]
fn batch_feed_appends_only_the_current_session() {
    let mut q = SegmentQueue::new();
    let t1 = ts(2024, 1, 1, 0, 0, 0);
    assert!(q.try_push(Playlist { url: String::from("old"), buf: vec![9, 9] }, t1));
    let mut stale = q.drain();
    q.switch_station();
    let t2 = ts(2024, 1, 1, 0, 5, 0);
    assert!(q.try_push(Playlist { url: String::from("new1"), buf: vec![1, 2] }, t1));
    assert!(q.try_push(Playlist { url: String::from("new2"), buf: vec![3] }, t2));
    let mut batch = q.drain();
    stale.append(&mut batch);
    let mut pipe = StreamPipe::new();
    let mut stat = StateCollector::new();
    let fed = feed_all(&mut pipe, &mut stat, &stale, 1_700_000_000_000, q.generation());
    assert_eq!(fed, 2);
    assert_eq!(pipe.read(10), vec![1, 2, 3]);
}

#[test]
fn stale_timestamps_never_regress_within_session() {
    let mut q = SegmentQueue::new();
    let mut stamps = vec![
        ts(2024, 3, 1, 10, 0, 0),
        ts(2024, 3, 1, 10, 0, 5),
        ts(2024, 3, 1, 10, 0, 5),
        ts(2024, 3, 1, 9, 59, 59),
        ts(2024, 3, 1, 10, 0, 10),
    ];
    let mut admitted = Vec::new();
    for (i, stamp) in stamps.drain(..).enumerate() {
        if q.try_push(Playlist { url: format!("s{}", i), buf: vec![] }, stamp) {
            admitted.push(stamp.key());
        }
    }
    assert_eq!(admitted.len(), 3);
    for w in admitted.windows(2) {
        assert!(w[0] < w[1]);
    }
}
