use std::time::Duration;
use wgc::{elapsed_since_system_boot, render_offset, uptime_nanos};

#[test]
fn one_second_of_counts_is_one_second() {
    assert_eq!(elapsed_since_system_boot(10_000_000, 10_000_000), Duration::from_secs(1));
}

#[test]
fn uptime_is_counts_times_a_billion_over_frequency() {
    assert_eq!(elapsed_since_system_boot(3, 2), Duration::from_nanos(1_500_000_000));
    assert_eq!(elapsed_since_system_boot(1, 3), Duration::from_nanos(333_333_333));
    assert_eq!(elapsed_since_system_boot(0, 10_000_000), Duration::ZERO);
    assert_eq!(uptime_nanos(3, 2), 1_500_000_000);
    assert_eq!(uptime_nanos(123_456_789, 10_000_000), 12_345_678_900);
}

#[test]
fn uptime_is_not_the_count_itself() {
    assert!(elapsed_since_system_boot(7, 1) != Duration::from_nanos(7));
    assert_eq!(elapsed_since_system_boot(7, 1), Duration::from_secs(7));
}

#[test]
fn uptime_wraps_at_sixty_four_bits() {
    let exact: u128 = i64::MAX as u128 * 1_000_000_000;
    assert_eq!(uptime_nanos(i64::MAX, 1), (exact % (1u128 << 64)) as u64);
    assert_eq!(uptime_nanos(i64::MAX, i64::MAX), 1_000_000_000);
}

#[test]
fn frame_rendered_before_the_reading_has_a_negative_offset() {
    // the counter says 2 s since boot, the frame was rendered at 1.5 s
    assert_eq!(render_offset(15_000_000, 20_000_000, 10_000_000), -500_000_000);
}

#[test]
fn frame_rendered_at_the_reading_has_offset_zero() {
    assert_eq!(render_offset(20_000_000, 20_000_000, 10_000_000), 0);
}

#[test]
fn frame_timestamp_counts_hundred_nanoseconds() {
    assert_eq!(render_offset(1, 0, 1), 100);
    assert_eq!(render_offset(30_000_000, 20_000_000, 10_000_000), 1_000_000_000);
    assert_eq!(render_offset(i64::MAX, 0, 1), i64::MAX as i128 * 100);
    assert_eq!(render_offset(i64::MIN, 0, 1), i64::MIN as i128 * 100);
}

#[test]
fn later_timestamp_gives_later_render_time() {
    let readings = [(0i64, 1i64), (20_000_000, 10_000_000), (i64::MAX, 3)];
    let ticks = [i64::MIN, -5, 0, 1, 15_000_000, 15_000_001, i64::MAX];
    for (now, frequency) in readings {
        for pair in ticks.windows(2) {
            assert!(
                render_offset(pair[0], now, frequency) <= render_offset(pair[1], now, frequency)
            );
        }
    }
}
