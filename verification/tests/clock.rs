use std::time::{Duration, Instant};
use voxel_viewer::clock::{Rate, FPS, SECOND};

#[test]
fn new_clock_has_no_frames_and_no_rate() {
    let clock = FPS::new();
    assert_eq!(clock.frame_count(), 0);
    assert_eq!(clock.fps(), Rate { frames: 0, nanos: 0 });
    assert_eq!(clock.fps().floor(), 0);
}

#[test]
fn rate_holds_until_a_second_has_passed() {
    let mut clock = FPS::new();
    let now = Instant::now();
    clock.record(now, 0);
    clock.record(now, 400_000_000);
    clock.record(now, SECOND - 1);
    assert_eq!(clock.frame_count(), 3);
    assert_eq!(clock.fps(), Rate { frames: 0, nanos: 0 });
}

#[test]
fn rate_is_measured_once_a_second_has_passed() {
    let mut clock = FPS::new();
    let now = Instant::now();
    for _ in 0..59 {
        clock.record(now, 500_000_000);
    }
    clock.record(now, SECOND);
    assert_eq!(clock.frame_count(), 0);
    assert_eq!(clock.fps(), Rate { frames: 60, nanos: SECOND });
    assert_eq!(clock.fps().floor(), 60);
}

#[test]
fn measured_rate_stays_until_the_next_measurement() {
    let mut clock = FPS::new();
    let now = Instant::now();
    clock.record(now, 2 * SECOND);
    assert_eq!(clock.fps(), Rate { frames: 1, nanos: 2 * SECOND });
    clock.record(now, 10);
    clock.record(now, 20);
    assert_eq!(clock.frame_count(), 2);
    assert_eq!(clock.fps(), Rate { frames: 1, nanos: 2 * SECOND });
    clock.record(now, 1_500_000_000);
    assert_eq!(clock.frame_count(), 0);
    assert_eq!(clock.fps(), Rate { frames: 3, nanos: 1_500_000_000 });
    assert_eq!(clock.fps().floor(), 2);
}

#[test]
fn floor_rounds_the_rate_down() {
    assert_eq!(Rate { frames: 0, nanos: 0 }.floor(), 0);
    assert_eq!(Rate { frames: 7, nanos: 0 }.floor(), 0);
    assert_eq!(Rate { frames: 60, nanos: 1_000_000_000 }.floor(), 60);
    assert_eq!(Rate { frames: 60, nanos: 1_000_000_001 }.floor(), 59);
    assert_eq!(Rate { frames: 144, nanos: 1_007_000_000 }.floor(), 142);
    assert_eq!(Rate { frames: 144, nanos: 1_006_000_000 }.floor(), 143);
    assert_eq!(Rate { frames: 1, nanos: 3_000_000_000 }.floor(), 0);
    assert_eq!(Rate { frames: u32::MAX, nanos: 1 }.floor(), u32::MAX as u64 * 1_000_000_000);
    assert_eq!(Rate { frames: u32::MAX, nanos: u128::MAX }.floor(), 0);
}

#[test]
fn floor_agrees_with_the_quotient_in_floating_point() {
    let rate = Rate { frames: 250, nanos: 1_016_000_000 };
    let seconds = Duration::from_nanos(rate.nanos as u64).as_secs_f64();
    assert_eq!(rate.floor() as f64, (rate.frames as f64 / seconds).floor());
}

#[test]
fn calculate_counts_a_frame_within_the_first_second() {
    let mut clock = FPS::new();
    clock.calculate();
    clock.calculate();
    assert_eq!(clock.frame_count(), 2);
    assert_eq!(clock.fps(), Rate { frames: 0, nanos: 0 });
}

#[test]
fn calculate_measures_the_rate_after_a_second() {
    let mut clock = FPS::new();
    clock.calculate();
    let start = Instant::now();
    while start.elapsed() < Duration::from_millis(1_100) {
        std::hint::spin_loop();
    }
    clock.calculate();
    assert_eq!(clock.frame_count(), 0);
    let rate = clock.fps();
    assert_eq!(rate.frames, 2);
    assert!(rate.nanos >= SECOND);
    assert!(rate.nanos < 15 * SECOND);
    assert!(rate.floor() <= 2);
    clock.calculate();
    assert_eq!(clock.frame_count(), 1);
    assert_eq!(clock.fps(), rate);
}

#[test]
fn clock_started_at_a_moment_is_at_rest() {
    let clock = FPS::started_at(Instant::now());
    assert_eq!(clock.frame_count(), 0);
    assert_eq!(clock.fps(), Rate { frames: 0, nanos: 0 });
}

#[test]
fn calculate_measures_from_the_stored_moment() {
    let now = Instant::now();
    let two_seconds = Duration::from_secs(2);
    let start = match now.checked_sub(two_seconds) {
        Some(past) => past,
        None => {
            while now.elapsed() < two_seconds {
                std::hint::spin_loop();
            }
            now
        }
    };
    let mut clock = FPS::started_at(start);
    clock.calculate();
    assert_eq!(clock.frame_count(), 0);
    let rate = clock.fps();
    assert_eq!(rate.frames, 1);
    assert!(rate.nanos >= 2 * SECOND);
    assert!(rate.nanos < 17 * SECOND);
    assert_eq!(rate.floor(), 0);
    // The measurement moved the stored moment to the moment of the call.
    clock.calculate();
    assert_eq!(clock.frame_count(), 1);
    assert_eq!(clock.fps(), rate);
}

#[test]
fn calculate_counts_only_when_the_stored_moment_is_recent() {
    let mut clock = FPS::started_at(Instant::now());
    clock.calculate();
    assert_eq!(clock.frame_count(), 1);
    assert_eq!(clock.fps(), Rate { frames: 0, nanos: 0 });
}
