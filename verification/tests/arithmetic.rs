//! Countdown arithmetic and rendering.

use rpl_countdown::countdown::{countdown, ArithmeticError, Countdown};
use rpl_countdown::render::{format_u64, hour_word, minute_word, render_countdown};

#[test]
fn countdown_typical_checkpoint() {
    let c = countdown(1000, 0, 5760, 12).unwrap();
    assert_eq!(c.blocks_remaining, 4760);
    assert_eq!(c.total_seconds, 57120);
    assert_eq!(c.hours, 15);
    assert_eq!(c.minutes, 52);
    assert_eq!(hour_word(c.hours), "hours");
    assert_eq!(minute_word(c.minutes), "minutes");
}

#[test]
fn countdown_overdue_is_underflow() {
    let r = countdown(130, 0, 60, 12);
    assert_eq!(r, Err(ArithmeticError::Underflow));
}

#[test]
fn countdown_boundary_is_not_underflow() {
    // Exactly the whole interval elapsed: zero blocks remain, no error.
    let c = countdown(120, 60, 60, 12).unwrap();
    assert_eq!(c.blocks_remaining, 0);
    assert_eq!(c.total_seconds, 0);
    assert_eq!(c.hours, 0);
    assert_eq!(c.minutes, 0);
}

#[test]
fn countdown_one_past_boundary_is_underflow() {
    assert_eq!(countdown(121, 60, 60, 12), Err(ArithmeticError::Underflow));
}

#[test]
fn singular_hour_exactly_at_one() {
    assert_eq!(hour_word(1), "hour");
    assert_eq!(hour_word(0), "hours");
    assert_eq!(hour_word(2), "hours");
    assert_eq!(minute_word(1), "minute");
    assert_eq!(minute_word(0), "minutes");
    assert_eq!(minute_word(61), "minutes");
}

#[test]
fn countdown_yielding_one_hour_renders_singular() {
    // 301 blocks of 12 s = 3612 s = 1 hour and 0 minutes.
    let c = countdown(0, 0, 301, 12).unwrap();
    assert_eq!(c.hours, 1);
    assert_eq!(c.minutes, 0);
    let line = render_countdown(&c);
    assert_eq!(
        line,
        "Next price update in 301 blocks, or 1 hour and 0 minutes"
    );
}

#[test]
fn countdown_yielding_one_minute_renders_singular() {
    // 5 blocks of 12 s = 60 s = 0 hours and 1 minute.
    let c = countdown(0, 0, 5, 12).unwrap();
    assert_eq!(c.hours, 0);
    assert_eq!(c.minutes, 1);
    let line = render_countdown(&c);
    assert_eq!(
        line,
        "Next price update in 5 blocks, or 0 hours and 1 minute"
    );
}

#[test]
fn render_typical_sentence() {
    let c = countdown(1000, 0, 5760, 12).unwrap();
    assert_eq!(
        render_countdown(&c),
        "Next price update in 4760 blocks, or 15 hours and 52 minutes"
    );
}

#[test]
fn format_u64_values() {
    assert_eq!(format_u64(0), "0");
    assert_eq!(format_u64(7), "7");
    assert_eq!(format_u64(10), "10");
    assert_eq!(format_u64(57120), "57120");
    assert_eq!(format_u64(u64::MAX), "18446744073709551615");
}

#[test]
fn countdown_largest_interval() {
    // The largest interval that the contract admits with one-second blocks.
    let c = countdown(0, 0, u64::MAX, 1).unwrap();
    assert_eq!(c.blocks_remaining, u64::MAX);
    assert_eq!(c.total_seconds, u64::MAX);
    assert_eq!(c.hours, u64::MAX / 3600);
}

#[test]
fn countdown_struct_equality() {
    let a = Countdown { blocks_remaining: 1, total_seconds: 12, hours: 0, minutes: 0 };
    let b = Countdown { blocks_remaining: 1, total_seconds: 12, hours: 0, minutes: 0 };
    assert_eq!(a, b);
}
