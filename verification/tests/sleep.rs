//! Behaviour of the two sleep strategies, observed through the recording
//! mocks: which register-level operations run, in which order, and how
//! often the processor is halted.

use lpc82x_hal::clock::{IrcDerivedClock, LowPowerClock, Ticks};
use lpc82x_hal::mock::{MockPmu, MockTimer};
use lpc82x_hal::nvic::Nvic;
use lpc82x_hal::scb::Scb;
use lpc82x_hal::sleep::{Busy, Regular, Sleep};
use lpc82x_hal::wkt::TimerOp;

#[test]
fn busy_sleep_zero_ticks_touches_no_hardware() {
    let mut busy = Busy::prepare(MockTimer::new(0));
    busy.sleep(Ticks::<LowPowerClock>::new(0));
    let timer = busy.free();
    assert_eq!(timer.calls().len(), 0);
}

#[test]
fn regular_sleep_zero_ticks_touches_no_hardware() {
    let mut regular = Regular::prepare(
        Nvic::new(),
        MockPmu::new(),
        Scb::new(),
        MockTimer::new(0),
    );
    regular.sleep(Ticks::<LowPowerClock>::new(0));
    let (_nvic, pmu, _scb, timer) = regular.free();
    assert_eq!(timer.calls().len(), 0);
    assert_eq!(pmu.times_entered(), 0);
}

#[test]
fn busy_sleep_arms_timer_once_before_first_poll() {
    let mut busy = Busy::prepare(MockTimer::new(0));
    busy.sleep(Ticks::<LowPowerClock>::new(25));
    let timer = busy.free();
    let expected = vec![
        TimerOp::SelectClock { clock: 1 },
        TimerOp::SetTimeout { ticks: 25 },
        TimerOp::Wait { elapsed: true },
    ];
    assert_eq!(timer.calls().as_slice(), expected.as_slice());
}

#[test]
fn busy_sleep_polls_once_more_than_the_would_block_count() {
    let mut busy = Busy::prepare(MockTimer::new(3));
    busy.sleep(Ticks::<IrcDerivedClock>::new(750));
    let timer = busy.free();
    let expected = vec![
        TimerOp::SelectClock { clock: 0 },
        TimerOp::SetTimeout { ticks: 750 },
        TimerOp::Wait { elapsed: false },
        TimerOp::Wait { elapsed: false },
        TimerOp::Wait { elapsed: false },
        TimerOp::Wait { elapsed: true },
    ];
    assert_eq!(timer.calls().as_slice(), expected.as_slice());
}

#[test]
fn busy_sleep_never_touches_interrupt_or_power_hardware() {
    // Busy holds no power management unit at all, so only the timer's
    // record needs checking for interrupt operations.
    let mut busy = Busy::prepare(MockTimer::new(5));
    busy.sleep(Ticks::<LowPowerClock>::new(100));
    let timer = busy.free();
    assert_eq!(timer.calls().len(), 8);
    for op in timer.calls().iter() {
        assert!(!matches!(op, TimerOp::EnableInterrupt));
    }
}

#[test]
fn regular_sleep_enables_interrupt_before_arming() {
    let mut regular = Regular::prepare(
        Nvic::new(),
        MockPmu::new(),
        Scb::new(),
        MockTimer::new(0),
    );
    regular.sleep(Ticks::<LowPowerClock>::new(10_000));
    let (_nvic, pmu, _scb, timer) = regular.free();
    let expected = vec![
        TimerOp::SelectClock { clock: 1 },
        TimerOp::EnableInterrupt,
        TimerOp::SetTimeout { ticks: 10_000 },
        TimerOp::Wait { elapsed: true },
    ];
    assert_eq!(timer.calls().as_slice(), expected.as_slice());
    // The first poll already reported "elapsed", so the processor was
    // never halted.
    assert_eq!(pmu.times_entered(), 0);
}

#[test]
fn regular_sleep_halts_once_per_failed_poll() {
    let mut regular = Regular::prepare(
        Nvic::new(),
        MockPmu::new(),
        Scb::new(),
        MockTimer::new(2),
    );
    regular.sleep(Ticks::<IrcDerivedClock>::new(1_500_000));
    let (_nvic, pmu, _scb, timer) = regular.free();
    let expected = vec![
        TimerOp::SelectClock { clock: 0 },
        TimerOp::EnableInterrupt,
        TimerOp::SetTimeout { ticks: 1_500_000 },
        TimerOp::Wait { elapsed: false },
        TimerOp::Wait { elapsed: false },
        TimerOp::Wait { elapsed: true },
    ];
    assert_eq!(timer.calls().as_slice(), expected.as_slice());
    assert_eq!(pmu.times_entered(), 2);
}

#[test]
fn regular_sleep_halt_count_tracks_longer_waits() {
    let mut regular = Regular::prepare(
        Nvic::new(),
        MockPmu::new(),
        Scb::new(),
        MockTimer::new(7),
    );
    regular.sleep(Ticks::<LowPowerClock>::new(1));
    let (_nvic, pmu, _scb, timer) = regular.free();
    // Three setup operations, then seven failed polls and the final one.
    assert_eq!(timer.calls().len(), 11);
    assert_eq!(pmu.times_entered(), 7);
}

#[test]
fn strategies_can_be_reused_and_logs_accumulate() {
    let mut busy = Busy::prepare(MockTimer::new(1));
    busy.sleep(Ticks::<LowPowerClock>::new(5));
    busy.sleep(Ticks::<LowPowerClock>::new(0));
    busy.sleep(Ticks::<LowPowerClock>::new(6));
    let timer = busy.free();
    let expected = vec![
        TimerOp::SelectClock { clock: 1 },
        TimerOp::SetTimeout { ticks: 5 },
        TimerOp::Wait { elapsed: false },
        TimerOp::Wait { elapsed: true },
        TimerOp::SelectClock { clock: 1 },
        TimerOp::SetTimeout { ticks: 6 },
        TimerOp::Wait { elapsed: true },
    ];
    assert_eq!(timer.calls().as_slice(), expected.as_slice());
}
