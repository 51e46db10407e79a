use parallax::sprite::{SpriteFrameUpdate, Timer};

#[test]
fn test_timer_ticks_and_wraps() {
    let mut t = Timer::new(500_000);
    assert_eq!(t.elapsed_micros, 0);
    assert!(!t.tick(400_000));
    assert_eq!(t.elapsed_micros, 400_000);
    // Crossing the period reports finished and keeps the remainder.
    assert!(t.tick(200_000));
    assert_eq!(t.elapsed_micros, 100_000);
    // A tick spanning several periods still wraps into the period.
    assert!(t.tick(1_250_000));
    assert_eq!(t.elapsed_micros, 350_000);
}

#[test]
fn test_zero_period_timer_always_finishes() {
    let mut t = Timer::new(0);
    assert!(t.tick(0));
    assert!(t.tick(123));
    assert_eq!(t.elapsed_micros, 0);
}

#[test]
fn test_next_index_advances_and_wraps() {
    let mut frame = SpriteFrameUpdate { index: 0, total: 3, timer: Timer::new(1_000_000) };
    // Not enough time: the index stays.
    assert_eq!(frame.next_index(500_000), 0);
    // The period elapses: the index advances.
    assert_eq!(frame.next_index(600_000), 1);
    assert_eq!(frame.next_index(1_000_000), 2);
    // And wraps modulo the frame count.
    assert_eq!(frame.next_index(1_000_000), 0);
    assert_eq!(frame.next_index(1_000_000), 1);
}

#[test]
fn test_next_index_reduces_out_of_range_start() {
    // A starting index beyond the frame count is reported modulo the count.
    let mut frame = SpriteFrameUpdate { index: 7, total: 3, timer: Timer::new(1_000_000) };
    assert_eq!(frame.next_index(0), 1);
    assert_eq!(frame.next_index(1_000_000), 2);
}
