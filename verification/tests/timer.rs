use std::time::Duration;

use mayday::timer::{Timer, TimerMode, NANOS_PER_SECOND};

#[test]
fn fresh_timer_is_running() {
    let t = Timer::new(10 * NANOS_PER_SECOND, TimerMode::Once);
    assert_eq!(t.duration(), 10_000_000_000);
    assert_eq!(t.elapsed(), 0);
    assert_eq!(t.mode(), TimerMode::Once);
    assert!(!t.finished());
}

#[test]
fn from_seconds_counts_nanoseconds() {
    let t = Timer::from_seconds(15, TimerMode::Once);
    assert_eq!(t.duration(), 15_000_000_000);
    let longest = Timer::from_seconds(u32::MAX, TimerMode::Repeating);
    assert_eq!(longest.duration(), 4_294_967_295_000_000_000);
    assert_eq!(longest.mode(), TimerMode::Repeating);
}

#[test]
fn one_shot_timer_accumulates_until_duration() {
    let mut t = Timer::new(10 * NANOS_PER_SECOND, TimerMode::Once);
    t.tick(250_000_000);
    assert_eq!(t.elapsed(), 250_000_000);
    assert!(!t.finished());
    t.tick(9_749_999_999);
    assert_eq!(t.elapsed(), 9_999_999_999);
    assert!(!t.finished());
    t.tick(1);
    assert_eq!(t.elapsed(), 10_000_000_000);
    assert!(t.finished());
}

#[test]
fn one_shot_timer_shows_all_the_time_that_finished_it() {
    let mut t = Timer::new(10 * NANOS_PER_SECOND, TimerMode::Once);
    t.tick(4 * NANOS_PER_SECOND);
    t.tick(500 * NANOS_PER_SECOND);
    assert_eq!(t.elapsed(), 504_000_000_000);
    assert!(t.finished());
}

#[test]
fn finished_one_shot_timer_ignores_ticks() {
    let mut t = Timer::new(10 * NANOS_PER_SECOND, TimerMode::Once);
    t.tick(12 * NANOS_PER_SECOND);
    assert!(t.finished());
    t.tick(NANOS_PER_SECOND);
    t.tick(u64::MAX);
    assert_eq!(t.elapsed(), 12_000_000_000);
    assert!(t.finished());
}

#[test]
fn one_shot_timer_holds_the_largest_count() {
    let mut t = Timer::new(10, TimerMode::Once);
    t.tick(9);
    t.tick(u64::MAX);
    assert_eq!(t.elapsed(), u64::MAX);
    assert!(t.finished());
}

#[test]
fn one_shot_timer_survives_the_largest_tick() {
    let mut t = Timer::new(u64::MAX, TimerMode::Once);
    t.tick(u64::MAX - 1);
    assert!(!t.finished());
    t.tick(u64::MAX);
    assert!(t.finished());
    assert_eq!(t.elapsed(), u64::MAX);
}

#[test]
fn reset_restarts_the_timer() {
    let mut t = Timer::new(2 * NANOS_PER_SECOND, TimerMode::Once);
    t.tick(3 * NANOS_PER_SECOND);
    assert!(t.finished());
    t.reset();
    assert!(!t.finished());
    assert_eq!(t.elapsed(), 0);
    assert_eq!(t.duration(), 2_000_000_000);
    t.tick(NANOS_PER_SECOND);
    assert_eq!(t.elapsed(), 1_000_000_000);
    assert!(!t.finished());
}

#[test]
fn zero_tick_changes_nothing() {
    let mut t = Timer::new(NANOS_PER_SECOND, TimerMode::Once);
    t.tick(400);
    t.tick(0);
    assert_eq!(t.elapsed(), 400);
    assert!(!t.finished());
}

#[test]
fn zero_duration_finishes_on_first_tick() {
    let mut t = Timer::new(0, TimerMode::Once);
    assert!(!t.finished());
    t.tick(0);
    assert!(t.finished());
    assert_eq!(t.elapsed(), 0);
    let mut r = Timer::new(0, TimerMode::Repeating);
    r.tick(NANOS_PER_SECOND);
    assert!(r.finished());
    assert_eq!(r.elapsed(), 0);
}

#[test]
fn repeating_timer_keeps_the_remainder() {
    let mut t = Timer::new(2 * NANOS_PER_SECOND, TimerMode::Repeating);
    t.tick(750_000_000);
    assert_eq!(t.elapsed(), 750_000_000);
    assert!(!t.finished());
    t.tick(1_500_000_000);
    assert_eq!(t.elapsed(), 250_000_000);
    assert!(t.finished());
    t.tick(7_000_000_000);
    assert_eq!(t.elapsed(), 1_250_000_000);
    assert!(t.finished());
}

#[test]
fn repeating_timer_stays_finished_until_reset() {
    let mut t = Timer::new(2 * NANOS_PER_SECOND, TimerMode::Repeating);
    t.tick(2_250_000_000);
    assert!(t.finished());
    t.tick(1_000_000_000);
    assert_eq!(t.elapsed(), 1_250_000_000);
    assert!(t.finished());
    t.reset();
    assert!(!t.finished());
    assert_eq!(t.elapsed(), 0);
}

const DURATIONS: [u64; 6] = [0, 1, 999_999_999, 1_000_000_000, 5_000_000_000, 15_000_000_000];

const TICKS: [u64; 9] = [
    0,
    1,
    16_666_667,
    500_000_000,
    999_999_999,
    1_000_000_000,
    4_000_000_000,
    12_000_000_000,
    3,
];

#[test]
fn one_shot_timer_finishes_when_the_engine_timer_does() {
    for duration in DURATIONS {
        let mut ours = Timer::new(duration, TimerMode::Once);
        let mut engine =
            bevy::time::Timer::new(Duration::from_nanos(duration), bevy::time::TimerMode::Once);
        for round in 0..4 {
            for tick in TICKS.iter().skip(round) {
                ours.tick(*tick);
                engine.tick(Duration::from_nanos(*tick));
                assert_eq!(ours.finished(), engine.finished());
                let shown = (ours.elapsed() as u128).min(duration as u128);
                assert_eq!(shown, engine.elapsed().as_nanos());
                if !ours.finished() {
                    assert_eq!(ours.elapsed() as u128, engine.elapsed().as_nanos());
                }
            }
            ours.reset();
            engine.reset();
            assert_eq!(ours.elapsed() as u128, engine.elapsed().as_nanos());
            assert_eq!(ours.finished(), engine.finished());
        }
    }
}

#[test]
fn repeating_timer_wraps_like_the_engine_timer() {
    for duration in DURATIONS {
        let mut ours = Timer::new(duration, TimerMode::Repeating);
        let mut engine = bevy::time::Timer::new(
            Duration::from_nanos(duration),
            bevy::time::TimerMode::Repeating,
        );
        let mut reached = false;
        for tick in TICKS {
            ours.tick(tick);
            engine.tick(Duration::from_nanos(tick));
            reached |= engine.finished();
            assert_eq!(ours.elapsed() as u128, engine.elapsed().as_nanos());
            assert_eq!(ours.finished(), reached);
        }
    }
}
