//! Clock identities and clock-tagged tick counts
//!
//! A duration handed to the sleep subsystem is a number of ticks of one
//! specific clock. [`Ticks`] ties that number to the clock's type, so a count
//! measured against one clock can never be consumed by code expecting a count
//! for another: the tag is part of the type, not a run-time field.

use vstd::prelude::*;
use vstd::arithmetic::div_mod::{lemma_div_pos_is_pos, lemma_fundamental_div_mod, lemma_mod_bound};
use vstd::arithmetic::mul::lemma_mul_nonnegative;
use core::marker::PhantomData;

use crate::init_state;
use crate::wkt;

verus! {

/// Marker for clocks that are currently switched on
///
/// Implemented only for the type states of a clock in which its oscillator is
/// actually running, so a bound `C: Enabled` is a compile-time proof that the
/// clock is on. There is no run-time "is this clock on" check anywhere.
pub trait Enabled {}

/// A clock's nominal rate
///
/// Implemented by every clock type, in every type state: the rate is a fact
/// about the clock's identity, not about whether it is running.
pub trait Rate {
    /// The clock's rate in hertz
    spec fn spec_freq_hz() -> u64;

    /// The rate is a positive number
    proof fn freq_hz_positive()
        ensures
            Self::spec_freq_hz() > 0,
    ;

    /// Returns the clock's rate in hertz
    fn freq_hz() -> (f: u64)
        ensures
            f == Self::spec_freq_hz(),
    ;
}

/// A duration, measured in ticks of the clock `C`
///
/// A value of this type can only be obtained while `C` is proven enabled, and
/// its meaning is fixed by `C`'s rate: `value` ticks last
/// `value / C::spec_freq_hz()` seconds.
pub struct Ticks<C> {
    /// The number of ticks
    pub value: u32,

    /// Ties the count to the clock it was measured against
    pub _clock: PhantomData<C>,
}

impl<C: Enabled> Ticks<C> {
    /// Creates a tick count for the enabled clock `C`
    pub fn new(value: u32) -> (t: Ticks<C>)
        ensures
            t.value == value,
    {
        Ticks {
            value,
            _clock: PhantomData,
        }
    }
}

impl<C: Enabled + Rate> Ticks<C> {
    /// Converts a duration in microseconds into ticks of the enabled clock
    /// `C`
    ///
    /// Scales the duration by the clock's rate, rounding down: a sub-tick
    /// duration legally becomes zero ticks, which downstream consumers treat
    /// as a no-op sleep. The duration must be short enough for its tick
    /// count to fit the timer's 32-bit countdown.
    pub fn from_micros(micros: u32) -> (t: Ticks<C>)
        requires
            micros as int * C::spec_freq_hz() as int / 1_000_000 <= u32::MAX,
        ensures
            t.value == micros as int * C::spec_freq_hz() as int / 1_000_000,
    {
        let f = C::freq_hz();
        let scaled: u128 = (micros as u128) * (f as u128) / 1_000_000;
        proof {
            C::freq_hz_positive();
            lemma_mul_nonnegative(micros as int, f as int);
            lemma_div_pos_is_pos(micros as int * f as int, 1_000_000);
        }
        Ticks {
            value: scaled as u32,
            _clock: PhantomData,
        }
    }

    /// The duration of this tick count in microseconds, rounded down
    pub fn to_micros(&self) -> (micros: u64)
        ensures
            micros == self.value as int * 1_000_000 / C::spec_freq_hz() as int,
    {
        proof {
            C::freq_hz_positive();
        }
        let f = C::freq_hz();
        (self.value as u64) * 1_000_000 / f
    }
}

/// Law: converting a duration to ticks of a clock and back reproduces the
/// original duration to within one tick of rounding error: the round trip
/// never grows the duration, never makes it negative, and what it cuts off,
/// multiplied by the rate, stays below one second plus one tick's worth —
/// that is, below one tick plus the one microsecond the result is rounded
/// to. Both conversions round down, so neither count nor duration can
/// overflow a value the forward conversion admits.
pub proof fn lemma_micros_round_trip(micros: int, freq: int)
    requires
        0 <= micros,
        0 < freq,
    ensures
        ({
            let ticks = micros * freq / 1_000_000;
            let back = ticks * 1_000_000 / freq;
            0 <= back <= micros && (micros - back) * freq < 1_000_000 + freq
        }),
{
    let d = 1_000_000int;
    let mf = micros * freq;
    let ticks = mf / d;
    let back = ticks * d / freq;
    lemma_mul_nonnegative(micros, freq);
    lemma_div_pos_is_pos(mf, d);
    lemma_mul_nonnegative(ticks, d);
    lemma_div_pos_is_pos(ticks * d, freq);
    lemma_fundamental_div_mod(mf, d);
    lemma_mod_bound(mf, d);
    lemma_fundamental_div_mod(ticks * d, freq);
    lemma_mod_bound(ticks * d, freq);
    let r1 = mf % d;
    let r2 = (ticks * d) % freq;
    assert((micros - back) * freq == r1 + r2) by (nonlinear_arith)
        requires
            mf == micros * freq,
            mf == d * ticks + r1,
            ticks * d == freq * back + r2,
    ;
    assert(back <= micros) by (nonlinear_arith)
        requires
            (micros - back) * freq == r1 + r2,
            0 <= r1,
            0 <= r2,
            0 < freq,
    ;
}

/// The self-calibrated internal oscillator, divided down for the wake-up timer
///
/// Runs at 750 kHz. The type state says whether the divided-down clock has
/// been switched on.
pub struct IrcDerivedClock<State = init_state::Enabled> {
    _state: PhantomData<State>,
}

/// The low-power oscillator
///
/// Runs at 10 kHz and stays available in low-power modes. The type state says
/// whether the oscillator has been switched on.
pub struct LowPowerClock<State = init_state::Enabled> {
    _state: PhantomData<State>,
}

impl IrcDerivedClock<init_state::Disabled> {
    /// Creates a handle for the divided-down internal oscillator
    ///
    /// After reset the divider is off, so the handle starts out disabled.
    pub fn new() -> IrcDerivedClock<init_state::Disabled> {
        IrcDerivedClock {
            _state: PhantomData,
        }
    }

    /// Switches the divided-down clock on
    pub fn enable(self) -> IrcDerivedClock<init_state::Enabled> {
        IrcDerivedClock {
            _state: PhantomData,
        }
    }
}

impl LowPowerClock<init_state::Disabled> {
    /// Creates a handle for the low-power oscillator
    ///
    /// After reset the oscillator is off, so the handle starts out disabled.
    pub fn new() -> LowPowerClock<init_state::Disabled> {
        LowPowerClock {
            _state: PhantomData,
        }
    }

    /// Switches the low-power oscillator on
    pub fn enable(self) -> LowPowerClock<init_state::Enabled> {
        LowPowerClock {
            _state: PhantomData,
        }
    }
}

impl Enabled for IrcDerivedClock<init_state::Enabled> {}

impl Enabled for LowPowerClock<init_state::Enabled> {}

impl<State> Rate for IrcDerivedClock<State> {
    open spec fn spec_freq_hz() -> u64 {
        750_000
    }

    proof fn freq_hz_positive() {
    }

    fn freq_hz() -> (f: u64) {
        750_000
    }
}

impl<State> Rate for LowPowerClock<State> {
    open spec fn spec_freq_hz() -> u64 {
        10_000
    }

    proof fn freq_hz_positive() {
    }

    fn freq_hz() -> (f: u64) {
        10_000
    }
}

impl<State> wkt::Clock for IrcDerivedClock<State> {
    open spec fn spec_id() -> u8 {
        0
    }

    fn id() -> u8 {
        0
    }
}

impl<State> wkt::Clock for LowPowerClock<State> {
    open spec fn spec_id() -> u8 {
        1
    }

    fn id() -> u8 {
        1
    }
}

/// The main system clock
///
/// Always running while the core executes at all, so the handle has no type
/// state and counts as enabled. It is not among the clocks the wake-up timer
/// can count.
pub struct SystemClock;

impl SystemClock {
    /// Creates a handle for the system clock
    pub fn new() -> SystemClock {
        SystemClock
    }
}

impl Enabled for SystemClock {}

impl Rate for SystemClock {
    open spec fn spec_freq_hz() -> u64 {
        12_000_000
    }

    proof fn freq_hz_positive() {
    }

    fn freq_hz() -> (f: u64) {
        12_000_000
    }
}

} // verus!
