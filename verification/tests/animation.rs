//! Tests of the timer, the easing functions and the keyframe tracks.

use vollmond::easing::{apply, Easing, SCALE};
use vollmond::timer::Timer;
use vollmond::tween::{Keyframe, Repeat, Tween, TweenError, MAX_TIME, MAX_VALUE};

fn linear_ramp() -> Vec<Keyframe> {
    vec![
        Keyframe::new(0, 0, Easing::Linear),
        Keyframe::new(1000, 1000, Easing::Linear),
    ]
}

#[test]
fn timer_three_seconds_boundary() {
    let mut t = Timer::new(3000);
    t.tick(2900);
    assert!(!t.finished());
    t.tick(200);
    assert!(t.finished());
}

#[test]
fn timer_finishes_exactly_at_duration() {
    let mut t = Timer::new_sec(3);
    t.tick(2900);
    assert!(!t.finished());
    t.tick(100);
    assert!(t.finished());
}

#[test]
fn timer_clamps_negative_delta() {
    let mut t = Timer::new(10);
    t.tick(-50);
    assert_eq!(t.elapsed, 0);
    assert!(!t.finished());
    t.tick(10);
    assert!(t.finished());
}

#[test]
fn timer_reset_starts_over() {
    let mut t = Timer::new(100);
    t.tick(150);
    assert!(t.finished());
    t.reset();
    assert!(!t.finished());
    assert_eq!(t.duration, 100);
}

#[test]
fn easing_endpoints_fixed() {
    for e in [Easing::Linear, Easing::EaseIn, Easing::EaseOut, Easing::EaseInOut] {
        assert_eq!(apply(e, 0), 0);
        assert_eq!(apply(e, SCALE), SCALE);
    }
}

#[test]
fn easing_exact_midpoints() {
    assert_eq!(apply(Easing::Linear, 500), 500);
    assert_eq!(apply(Easing::EaseIn, 500), 250);
    assert_eq!(apply(Easing::EaseOut, 500), 750);
    assert_eq!(apply(Easing::EaseInOut, 500), 500);
    assert_eq!(apply(Easing::EaseInOut, 250), 125);
    assert_eq!(apply(Easing::EaseInOut, 750), 875);
}

#[test]
fn easing_clamps_out_of_range() {
    for e in [Easing::Linear, Easing::EaseIn, Easing::EaseOut, Easing::EaseInOut] {
        assert_eq!(apply(e, -40), apply(e, 0));
        assert_eq!(apply(e, 5000), apply(e, SCALE));
    }
}

#[test]
fn easing_monotonic_samples() {
    for e in [Easing::Linear, Easing::EaseIn, Easing::EaseOut, Easing::EaseInOut] {
        let mut prev = apply(e, 0);
        for t in 1..=100 {
            let cur = apply(e, t * 10);
            assert!(cur >= prev);
            prev = cur;
        }
    }
}

#[test]
fn tween_rejects_too_few_keyframes() {
    let kfs = vec![Keyframe::new(0, 0, Easing::Linear)];
    let r = Tween::from_keyframes(kfs, 0, Repeat::Finite(1), false);
    assert_eq!(r.unwrap_err(), TweenError::TooFewKeyframes);
}

#[test]
fn tween_rejects_non_increasing_times() {
    let kfs = vec![
        Keyframe::new(0, 500, Easing::Linear),
        Keyframe::new(1000, 500, Easing::Linear),
    ];
    let r = Tween::from_keyframes(kfs, 0, Repeat::Finite(1), false);
    assert_eq!(r.unwrap_err(), TweenError::TimesNotIncreasing);
}

#[test]
fn tween_rejects_time_out_of_range() {
    let kfs = vec![
        Keyframe::new(0, 0, Easing::Linear),
        Keyframe::new(1000, MAX_TIME + 1, Easing::Linear),
    ];
    let r = Tween::from_keyframes(kfs, 0, Repeat::Finite(1), false);
    assert_eq!(r.unwrap_err(), TweenError::TimeOutOfRange);
}

#[test]
fn tween_rejects_value_out_of_range() {
    let kfs = vec![
        Keyframe::new(0, 0, Easing::Linear),
        Keyframe::new(MAX_VALUE + 1, 1000, Easing::Linear),
    ];
    let r = Tween::from_keyframes(kfs, 0, Repeat::Finite(1), false);
    assert_eq!(r.unwrap_err(), TweenError::ValueOutOfRange);
}

#[test]
fn tween_rejects_start_index_past_repeats() {
    let r = Tween::from_keyframes(linear_ramp(), 3, Repeat::Finite(3), true);
    assert_eq!(r.unwrap_err(), TweenError::StartIndexOutOfRange);
    let r = Tween::from_keyframes(linear_ramp(), 3, Repeat::Infinite, true);
    assert!(r.is_ok());
}

#[test]
fn tween_boundary_values_are_exact() {
    // An eased multi-segment track hits every keyframe value exactly.
    let kfs = vec![
        Keyframe::new(0, 0, Easing::EaseOut),
        Keyframe::new(8000, 500, Easing::EaseOut),
        Keyframe::new(0, 1000, Easing::EaseInOut),
    ];
    let mut t = Tween::from_keyframes(kfs, 0, Repeat::Finite(3), true).unwrap();
    assert_eq!(t.value(), 0);
    t.update(500);
    assert_eq!(t.clock, 500);
    assert_eq!(t.value(), 8000);
    t.update(500);
    assert_eq!(t.clock, 1000);
    assert_eq!(t.value(), 0);
}

#[test]
fn tween_linear_interpolation_exact() {
    let mut t = Tween::from_keyframes(linear_ramp(), 0, Repeat::Finite(1), false).unwrap();
    t.update(250);
    assert_eq!(t.value(), 250);
    t.update(250);
    assert_eq!(t.value(), 500);
}

#[test]
fn tween_eased_segment_value() {
    // EaseIn into the second keyframe: at half the segment the eased
    // progress is a quarter.
    let kfs = vec![
        Keyframe::new(0, 0, Easing::Linear),
        Keyframe::new(1000, 1000, Easing::EaseIn),
    ];
    let mut t = Tween::from_keyframes(kfs, 0, Repeat::Finite(1), false).unwrap();
    t.update(500);
    assert_eq!(t.value(), 250);
}

#[test]
fn tween_holds_before_first_keyframe() {
    let kfs = vec![
        Keyframe::new(7000, 500, Easing::Linear),
        Keyframe::new(9000, 1000, Easing::Linear),
    ];
    let t = Tween::from_keyframes(kfs, 0, Repeat::Finite(1), false).unwrap();
    assert_eq!(t.value(), 7000);
}

#[test]
fn tween_terminal_hold_after_all_repeats() {
    // Two full passes of a one-second loop track: after exactly
    // 2 * 1000 ms the track stops clamped at the end, and further
    // updates change nothing.
    let mut t = Tween::from_keyframes(linear_ramp(), 0, Repeat::Finite(2), false).unwrap();
    t.update(2000);
    assert_eq!(t.clock, 1000);
    assert_eq!(t.repeats_left, Repeat::Finite(0));
    assert_eq!(t.value(), 1000);
    t.update(500);
    assert_eq!(t.clock, 1000);
    assert_eq!(t.value(), 1000);
    t.update(12345);
    assert_eq!(t.value(), 1000);
}

#[test]
fn tween_loop_wraps_mid_pass() {
    let mut t = Tween::from_keyframes(linear_ramp(), 0, Repeat::Finite(3), false).unwrap();
    t.update(1300);
    assert_eq!(t.clock, 300);
    assert_eq!(t.repeats_left, Repeat::Finite(2));
    assert_eq!(t.value(), 300);
}

#[test]
fn tween_ping_pong_round_trip() {
    // One full forward pass and one full backward pass return the clock
    // to its starting value.
    let mut t = Tween::from_keyframes(linear_ramp(), 0, Repeat::Finite(3), true).unwrap();
    assert_eq!(t.clock, 0);
    t.update(1000);
    assert_eq!(t.clock, 1000);
    assert!(!t.forward);
    t.update(1000);
    assert_eq!(t.clock, 0);
}

#[test]
fn tween_ping_pong_reflects_overshoot() {
    let mut t = Tween::from_keyframes(linear_ramp(), 0, Repeat::Finite(4), true).unwrap();
    t.update(1250);
    assert_eq!(t.clock, 750);
    assert!(!t.forward);
    assert_eq!(t.value(), 750);
}

#[test]
fn tween_infinite_repeat_never_stops() {
    let mut t = Tween::from_keyframes(linear_ramp(), 0, Repeat::Infinite, false).unwrap();
    t.update(987_654);
    assert_eq!(t.repeats_left, Repeat::Infinite);
    assert_eq!(t.clock, 654);
}

#[test]
fn tween_odd_start_index_begins_backward() {
    let t = Tween::from_keyframes(linear_ramp(), 1, Repeat::Finite(3), true).unwrap();
    assert!(!t.forward);
    assert_eq!(t.clock, 1000);
    assert_eq!(t.repeats_left, Repeat::Finite(2));
}
