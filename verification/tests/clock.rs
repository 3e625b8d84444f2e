//! The clock-tagged tick type: conversion between durations and tick
//! counts, the round-trip bound, and the compile-time capability gating.
//!
//! The gating itself is a static fact. A tick count can only be created for
//! a clock that is enabled, and only handed to `sleep` for a clock the
//! wake-up timer can count, so each of the following refuses to compile:
//!
//! ```compile_fail
//! use lpc82x_hal::clock::{LowPowerClock, Ticks};
//! use lpc82x_hal::init_state;
//! // The low-power oscillator has not been enabled.
//! let t = Ticks::<LowPowerClock<init_state::Disabled>>::new(1);
//! ```
//!
//! ```compile_fail
//! use lpc82x_hal::clock::{SystemClock, Ticks};
//! use lpc82x_hal::mock::MockTimer;
//! use lpc82x_hal::sleep::{Busy, Sleep};
//! // The system clock is enabled, but the wake-up timer cannot count it.
//! let mut busy = Busy::prepare(MockTimer::new(0));
//! busy.sleep(Ticks::<SystemClock>::new(1));
//! ```

use lpc82x_hal::clock::{IrcDerivedClock, LowPowerClock, SystemClock, Ticks};
use lpc82x_hal::init_state;

#[test]
fn ticks_carry_their_value() {
    let t = Ticks::<LowPowerClock>::new(750);
    assert_eq!(t.value, 750);
}

#[test]
fn a_disabled_clock_can_be_enabled_and_then_measures_ticks() {
    let clock = LowPowerClock::new();
    let _enabled = clock.enable();
    let t = Ticks::<LowPowerClock<init_state::Enabled>>::from_micros(1_000_000);
    assert_eq!(t.value, 10_000);
}

#[test]
fn from_micros_scales_by_the_clock_rate() {
    // 10 kHz: one tick per 100 microseconds.
    assert_eq!(Ticks::<LowPowerClock>::from_micros(1_000_000).value, 10_000);
    assert_eq!(Ticks::<LowPowerClock>::from_micros(100).value, 1);
    // 750 kHz: three ticks per four microseconds.
    assert_eq!(Ticks::<IrcDerivedClock>::from_micros(1_000).value, 750);
    assert_eq!(Ticks::<IrcDerivedClock>::from_micros(4).value, 3);
    // 12 MHz system clock.
    assert_eq!(Ticks::<SystemClock>::from_micros(5).value, 60);
}

#[test]
fn sub_tick_durations_round_down_to_zero() {
    assert_eq!(Ticks::<LowPowerClock>::from_micros(99).value, 0);
    assert_eq!(Ticks::<IrcDerivedClock>::from_micros(1).value, 0);
    assert_eq!(Ticks::<LowPowerClock>::from_micros(0).value, 0);
}

#[test]
fn to_micros_inverts_the_scaling() {
    assert_eq!(Ticks::<LowPowerClock>::new(10_000).to_micros(), 1_000_000);
    assert_eq!(Ticks::<IrcDerivedClock>::new(750).to_micros(), 1_000);
}

#[test]
fn round_trip_loses_at_most_one_tick_of_duration() {
    // 12_345 microseconds at 750 kHz is 9_258.75 ticks; the conversion
    // keeps 9_258 and the way back yields 12_344 microseconds, within one
    // 1.33-microsecond tick of the original.
    let t = Ticks::<IrcDerivedClock>::from_micros(12_345);
    assert_eq!(t.value, 9_258);
    assert_eq!(t.to_micros(), 12_344);

    // At 10 kHz a tick is 100 microseconds; 199 microseconds round-trips
    // to 100.
    let t = Ticks::<LowPowerClock>::from_micros(199);
    assert_eq!(t.value, 1);
    assert_eq!(t.to_micros(), 100);

    // An exact multiple of the tick length round-trips unchanged.
    let t = Ticks::<LowPowerClock>::from_micros(500);
    assert_eq!(t.to_micros(), 500);
}

#[test]
fn the_longest_duration_still_converts_without_overflow() {
    let t = Ticks::<LowPowerClock>::from_micros(u32::MAX);
    assert_eq!(t.value, 42_949_672);
    assert_eq!(t.to_micros(), 4_294_967_200);
}
