//! Higher-level sleep API
//!
//! This module puts the processor to sleep for a clock-tagged number of
//! ticks. There is one implementation of the [`Sleep`] capability per sleep
//! mode: [`Busy`] spins the processor between polls of the wake-up timer,
//! [`Regular`] halts it in a low-power mode and lets the timer's interrupt
//! wake it.
//!
//! Both strategies share one ordering rule, the most important invariant of
//! the module: a zero-tick duration returns before any hardware is touched,
//! because arming this hardware's countdown with zero risks a countdown that
//! never reports "elapsed". For a positive duration, the timer is armed
//! exactly once, before the first poll, and polling goes on until the first
//! poll that reports "elapsed". The contracts below state all of this over
//! the wake-up timer's ghost log of register-level operations.

use vstd::prelude::*;

use crate::clock::{self, Ticks};
use crate::nvic::Nvic;
use crate::pmu::Pmu;
use crate::scb::Scb;
use crate::wkt::{self, TimerOp, WakeupTimer};

verus! {

/// How many operations of `s` satisfy `f`
pub open spec fn count_ops(s: Seq<TimerOp>, f: spec_fn(TimerOp) -> bool) -> nat
    decreases s.len(),
{
    if s.len() == 0 {
        0
    } else {
        count_ops(s.drop_last(), f) + if f(s.last()) {
            1nat
        } else {
            0nat
        }
    }
}

/// How many times `s` arms the countdown
pub open spec fn arm_count(s: Seq<TimerOp>) -> nat {
    count_ops(s, |op: TimerOp| op is SetTimeout)
}

/// How many times `s` polls the elapsed flag
pub open spec fn poll_count(s: Seq<TimerOp>) -> nat {
    count_ops(s, |op: TimerOp| op is Wait)
}

/// How many polls of `s` reported "not yet elapsed"
pub open spec fn failed_poll_count(s: Seq<TimerOp>) -> nat {
    count_ops(s, |op: TimerOp| op == (TimerOp::Wait { elapsed: false }))
}

/// `k` polls that all reported "not yet elapsed"
pub open spec fn fail_seq(k: nat) -> Seq<TimerOp> {
    Seq::new(k, |i: int| TimerOp::Wait { elapsed: false })
}

/// `k` polls that reported "not yet elapsed", then one that reported "elapsed"
pub open spec fn wait_seq(k: nat) -> Seq<TimerOp> {
    fail_seq(k).push(TimerOp::Wait { elapsed: true })
}

/// The timer operations of one busy-waiting sleep: select the clock, arm the
/// countdown, poll until the first "elapsed"
pub open spec fn busy_trace(clock: u8, ticks: u32, k: nat) -> Seq<TimerOp> {
    seq![
        TimerOp::SelectClock { clock },
        TimerOp::SetTimeout { ticks },
    ] + wait_seq(k)
}

/// The timer operations of one interrupt-driven sleep: select the clock, arm
/// the interrupt path, arm the countdown, poll until the first "elapsed"
pub open spec fn regular_trace(clock: u8, ticks: u32, k: nat) -> Seq<TimerOp> {
    seq![
        TimerOp::SelectClock { clock },
        TimerOp::EnableInterrupt,
        TimerOp::SetTimeout { ticks },
    ] + wait_seq(k)
}

/// What every sleep strategy does to the timer for a positive tick count:
/// `post` extends `pre` by a stretch of operations that arms the countdown
/// exactly once, with the given tick count, strictly before every poll, and
/// that ends with the first poll reporting "elapsed", every earlier poll
/// having reported "not yet elapsed".
pub open spec fn arms_once_then_polls(pre: Seq<TimerOp>, post: Seq<TimerOp>, ticks: u32) -> bool {
    let added = post.subrange(pre.len() as int, post.len() as int);
    &&& pre.len() < post.len()
    &&& post.subrange(0, pre.len() as int) == pre
    &&& arm_count(added) == 1
    &&& forall|i: int|
        #![trigger added[i]]
        0 <= i < added.len() && added[i] is SetTimeout ==> added[i] == (TimerOp::SetTimeout {
            ticks,
        })
    &&& forall|i: int, j: int|
        #![trigger added[i], added[j]]
        0 <= i < added.len() && 0 <= j < added.len() && added[i] is SetTimeout && added[j] is Wait
            ==> i < j
    &&& added.last() == (TimerOp::Wait { elapsed: true })
    &&& forall|i: int|
        #![trigger added[i]]
        0 <= i < added.len() - 1 && added[i] is Wait ==> added[i] == (TimerOp::Wait {
            elapsed: false,
        })
}

/// Trait for putting the processor to sleep
///
/// There will typically be one implementation of `Sleep` per sleep mode that
/// is available on a given microcontroller. Only clocks that are enabled and
/// that the wake-up timer can count may measure the duration.
pub trait Sleep<C: clock::Enabled + wkt::Clock>: Sized {
    /// The log of the wake-up timer this strategy drives
    spec fn timer_log(&self) -> Seq<TimerOp>;

    /// Puts the processor to sleep for the given number of ticks of clock `C`
    ///
    /// A zero-tick duration is a no-op sleep: the call returns without
    /// touching the timer, so no poll is ever issued for it. For a positive
    /// duration the countdown is armed exactly once, before the first poll,
    /// and the call returns at the first poll that reports "elapsed".
    fn sleep(&mut self, ticks: Ticks<C>)
        ensures
            ticks.value == 0 ==> final(self).timer_log() == old(self).timer_log(),
            ticks.value > 0 ==> arms_once_then_polls(
                old(self).timer_log(),
                final(self).timer_log(),
                ticks.value,
            ),
    ;
}

/// Counting operations distributes over concatenation.
proof fn lemma_count_ops_concat(a: Seq<TimerOp>, b: Seq<TimerOp>, f: spec_fn(TimerOp) -> bool)
    ensures
        count_ops(a + b, f) == count_ops(a, f) + count_ops(b, f),
    decreases b.len(),
{
    if b.len() == 0 {
        assert(a + b =~= a);
    } else {
        assert((a + b).drop_last() =~= a + b.drop_last());
        assert((a + b).last() == b.last());
        lemma_count_ops_concat(a, b.drop_last(), f);
    }
}

/// A stretch without matching operations counts zero of them.
proof fn lemma_count_ops_none(s: Seq<TimerOp>, f: spec_fn(TimerOp) -> bool)
    requires
        forall|i: int| 0 <= i < s.len() ==> !f(#[trigger] s[i]),
    ensures
        count_ops(s, f) == 0,
    decreases s.len(),
{
    if s.len() > 0 {
        lemma_count_ops_none(s.drop_last(), f);
    }
}

/// A stretch of nothing but matching operations counts its whole length.
proof fn lemma_count_ops_all(s: Seq<TimerOp>, f: spec_fn(TimerOp) -> bool)
    requires
        forall|i: int| 0 <= i < s.len() ==> f(#[trigger] s[i]),
    ensures
        count_ops(s, f) == s.len(),
    decreases s.len(),
{
    if s.len() > 0 {
        lemma_count_ops_all(s.drop_last(), f);
    }
}

/// A setup stretch that ends in its only arming, followed by polls until the
/// first "elapsed", arms the countdown once, before every poll.
proof fn lemma_setup_then_polls(pre: Seq<TimerOp>, setup: Seq<TimerOp>, ticks: u32, k: nat)
    requires
        setup.len() > 0,
        setup.last() == (TimerOp::SetTimeout { ticks }),
        forall|i: int|
            #![trigger setup[i]]
            0 <= i < setup.len() - 1 ==> !(setup[i] is SetTimeout) && !(setup[i] is Wait),
    ensures
        arms_once_then_polls(pre, pre + (setup + wait_seq(k)), ticks),
{
    let added = setup + wait_seq(k);
    let post = pre + added;
    assert(post.subrange(0, pre.len() as int) =~= pre);
    assert(post.subrange(pre.len() as int, post.len() as int) =~= added);
    assert(arm_count(added) == 1) by {
        let is_arm = |op: TimerOp| op is SetTimeout;
        lemma_count_ops_concat(setup, wait_seq(k), is_arm);
        assert(count_ops(setup, is_arm) == 1) by {
            lemma_count_ops_none(setup.drop_last(), is_arm);
        }
        assert(count_ops(wait_seq(k), is_arm) == 0) by {
            lemma_count_ops_none(wait_seq(k), is_arm);
        }
    }
    assert forall|i: int| 0 <= i < added.len() && added[i] is SetTimeout implies added[i]
        == (TimerOp::SetTimeout { ticks }) by {
        if i < setup.len() {
            assert(added[i] == setup[i]);
        } else {
            assert(added[i] == wait_seq(k)[i - setup.len()]);
        }
    }
    assert forall|i: int, j: int|
        0 <= i < added.len() && 0 <= j < added.len() && added[i] is SetTimeout
            && added[j] is Wait implies i < j by {
        if i < setup.len() {
            assert(added[i] == setup[i]);
        } else {
            assert(added[i] == wait_seq(k)[i - setup.len()]);
        }
        if j < setup.len() {
            assert(added[j] == setup[j]);
        } else {
            assert(added[j] == wait_seq(k)[j - setup.len()]);
        }
    }
    assert(added.last() == wait_seq(k)[k as int]);
    assert forall|i: int| 0 <= i < added.len() - 1 && added[i] is Wait implies added[i]
        == (TimerOp::Wait { elapsed: false }) by {
        if i < setup.len() {
            assert(added[i] == setup[i]);
        } else {
            assert(added[i] == wait_seq(k)[i - setup.len()]);
        }
    }
}

/// Law: a busy-waiting sleep never arms the timer's interrupt path. It
/// cannot drive a power-management operation either: [`Busy`] holds nothing
/// but the timer, so no such operation is even reachable from it.
pub proof fn lemma_busy_trace_no_interrupt_enable(clock: u8, ticks: u32, k: nat)
    ensures
        forall|i: int|
            #![trigger busy_trace(clock, ticks, k)[i]]
            0 <= i < busy_trace(clock, ticks, k).len() ==> !(busy_trace(
                clock,
                ticks,
                k,
            )[i] is EnableInterrupt),
{
    let t = busy_trace(clock, ticks, k);
    assert forall|i: int| 0 <= i < t.len() implies !(t[i] is EnableInterrupt) by {
        if i >= 2 {
            assert(t[i] == wait_seq(k)[i - 2]);
        }
    }
}

/// Law: an interrupt-driven sleep arms the timer's interrupt path strictly
/// before it arms the countdown, and nothing else in it arms the countdown.
/// Its further law, one processor halt per poll that reported "not yet
/// elapsed", is part of the contract of [`Regular::sleep`] itself.
pub proof fn lemma_regular_trace_interrupt_before_arming(clock: u8, ticks: u32, k: nat)
    ensures
        regular_trace(clock, ticks, k)[1] == TimerOp::EnableInterrupt,
        regular_trace(clock, ticks, k)[2] == (TimerOp::SetTimeout { ticks }),
        forall|i: int|
            #![trigger regular_trace(clock, ticks, k)[i]]
            0 <= i < regular_trace(clock, ticks, k).len() && i != 2 ==> !(regular_trace(
                clock,
                ticks,
                k,
            )[i] is SetTimeout),
{
    let t = regular_trace(clock, ticks, k);
    assert forall|i: int| 0 <= i < t.len() && i != 2 implies !(t[i] is SetTimeout) by {
        if i >= 3 {
            assert(t[i] == wait_seq(k)[i - 3]);
        }
    }
}

/// Law: a sleep whose timer reported "not yet elapsed" `k` times polls the
/// timer exactly `k + 1` times, whichever strategy ran it: `k` failed polls
/// and the one successful poll that ends the sleep.
pub proof fn lemma_trace_poll_counts(clock: u8, ticks: u32, k: nat)
    ensures
        poll_count(busy_trace(clock, ticks, k)) == k + 1,
        poll_count(regular_trace(clock, ticks, k)) == k + 1,
        failed_poll_count(busy_trace(clock, ticks, k)) == k,
        failed_poll_count(regular_trace(clock, ticks, k)) == k,
{
    let is_poll = |op: TimerOp| op is Wait;
    let is_fail = |op: TimerOp| op == (TimerOp::Wait { elapsed: false });
    assert(wait_seq(k).drop_last() =~= fail_seq(k));
    lemma_count_ops_all(fail_seq(k), is_poll);
    lemma_count_ops_all(fail_seq(k), is_fail);
    assert(count_ops(wait_seq(k), is_poll) == k + 1);
    assert(count_ops(wait_seq(k), is_fail) == k);
    let busy_setup = seq![
        TimerOp::SelectClock { clock },
        TimerOp::SetTimeout { ticks },
    ];
    let regular_setup = seq![
        TimerOp::SelectClock { clock },
        TimerOp::EnableInterrupt,
        TimerOp::SetTimeout { ticks },
    ];
    lemma_count_ops_none(busy_setup, is_poll);
    lemma_count_ops_none(busy_setup, is_fail);
    lemma_count_ops_none(regular_setup, is_poll);
    lemma_count_ops_none(regular_setup, is_fail);
    lemma_count_ops_concat(busy_setup, wait_seq(k), is_poll);
    lemma_count_ops_concat(busy_setup, wait_seq(k), is_fail);
    lemma_count_ops_concat(regular_setup, wait_seq(k), is_poll);
    lemma_count_ops_concat(regular_setup, wait_seq(k), is_fail);
}

/// Relies on std::hint::spin_loop: a spin-wait hint to the processor with no
/// architectural effect; execution simply continues.
#[verifier::external_body]
fn nop() {
    std::hint::spin_loop();
}

/// Sleep mode based on busy waiting
///
/// Provides a [`Sleep`] implementation based on busy waiting and uses the
/// wake-up timer to measure the time. An interrupt handler is not required,
/// and no power-management hardware is involved: the strategy holds nothing
/// but the timer, so it cannot drive any power-management operation.
///
/// Only clocks that the wake-up timer supports can be used. See
/// [`wkt::Clock`] for more details.
///
/// Since this sleep mode waits busily, which is very energy-inefficient, it
/// is only suitable for simple examples, or very short wait times.
pub struct Busy<T: WakeupTimer> {
    wkt: T,
}

impl<T: WakeupTimer> Busy<T> {
    /// The wake-up timer the strategy holds
    pub closed spec fn spec_wkt(self) -> T {
        self.wkt
    }

    /// Prepare busy sleep mode
    ///
    /// Takes sole ownership of the wake-up timer and returns a strategy
    /// object. No side effects beyond the transfer.
    pub fn prepare(wkt: T) -> (s: Busy<T>)
        ensures
            s.spec_wkt() == wkt,
    {
        Busy { wkt }
    }

    /// Releases the wake-up timer, unchanged since the last sleep
    pub fn free(self) -> (wkt: T)
        ensures
            wkt == self.spec_wkt(),
    {
        self.wkt
    }
}

impl<T: WakeupTimer, C: clock::Enabled + wkt::Clock> Sleep<C> for Busy<T> {
    open spec fn timer_log(&self) -> Seq<TimerOp> {
        self.spec_wkt().log()
    }

    fn sleep(&mut self, ticks: Ticks<C>)
        ensures
            ticks.value == 0 ==> *final(self) == *old(self),
            ticks.value > 0 ==> exists|k: nat|
                final(self).spec_wkt().log() == old(self).spec_wkt().log() + busy_trace(
                    C::spec_id(),
                    ticks.value,
                    k,
                ),
    {
        // If we try to sleep for zero ticks, we'd never wake up again.
        if ticks.value == 0 {
            return ;
        }
        let ghost pre = self.wkt.log();
        self.wkt.select_clock::<C>();
        self.wkt.set_timeout(ticks.value);
        let ghost setup = seq![
            TimerOp::SelectClock { clock: C::spec_id() },
            TimerOp::SetTimeout { ticks: ticks.value },
        ];
        let ghost armed = self.wkt.log();
        proof {
            assert(armed =~= pre + setup);
            assert(armed + fail_seq(0) =~= armed);
        }
        let ghost mut failures: nat = 0;
        let mut done = false;
        while !done
            invariant
                done ==> self.wkt.log() == armed + wait_seq(failures),
                !done ==> self.wkt.log() == armed + fail_seq(failures),
            decreases self.wkt.poll_bound(), (if done { 0int } else { 1int }),
        {
            match self.wkt.wait() {
                Ok(_) => {
                    proof {
                        assert(self.wkt.log() =~= armed + wait_seq(failures));
                    }
                    done = true;
                },
                Err(nb::Error::WouldBlock) => {
                    nop();
                    proof {
                        failures = failures + 1;
                        assert(fail_seq(failures) =~= fail_seq((failures - 1) as nat).push(
                            TimerOp::Wait { elapsed: false },
                        ));
                        assert(self.wkt.log() =~= armed + fail_seq(failures));
                    }
                },
                Err(nb::Error::Other(_)) => {
                    // The timer's poll can only fail with the would-block
                    // signal, so this arm is unreachable.
                    proof {
                        assert(false);
                    }
                },
            }
        }
        proof {
            assert(self.wkt.log() =~= pre + (setup + wait_seq(failures)));
            assert(self.wkt.log() == pre + busy_trace(C::spec_id(), ticks.value, failures));
            lemma_setup_then_polls(pre, setup, ticks.value, failures);
        }
    }
}

/// Regular sleep mode
///
/// Provides a [`Sleep`] implementation for the regular sleep mode: between
/// polls of the wake-up timer the processor is halted in a low-power mode,
/// and the timer's interrupt wakes it up again at the right time.
///
/// The user must handle the wake-up timer's interrupt, or the program won't
/// wake up again.
///
/// Only clocks that the wake-up timer supports can be used. See
/// [`wkt::Clock`] for more details.
pub struct Regular<T: WakeupTimer, P: Pmu> {
    nvic: Nvic,
    pmu: P,
    scb: Scb,
    wkt: T,
}

impl<T: WakeupTimer, P: Pmu> Regular<T, P> {
    /// The wake-up timer the strategy holds
    pub closed spec fn spec_wkt(self) -> T {
        self.wkt
    }

    /// The power management unit the strategy holds
    pub closed spec fn spec_pmu(self) -> P {
        self.pmu
    }

    /// Prepare regular sleep mode
    ///
    /// Takes sole ownership of the interrupt controller, the power
    /// management unit, the system control block and the wake-up timer, and
    /// returns a strategy object. No side effects beyond the transfer.
    pub fn prepare(nvic: Nvic, pmu: P, scb: Scb, wkt: T) -> (s: Regular<T, P>)
        ensures
            s.spec_pmu() == pmu,
            s.spec_wkt() == wkt,
    {
        Regular { nvic, pmu, scb, wkt }
    }

    /// Releases the peripherals, unchanged since the last sleep
    pub fn free(self) -> (parts: (Nvic, P, Scb, T))
        ensures
            parts.1 == self.spec_pmu(),
            parts.3 == self.spec_wkt(),
    {
        let Regular { nvic, pmu, scb, wkt } = self;
        (nvic, pmu, scb, wkt)
    }
}

impl<T: WakeupTimer, P: Pmu, C: clock::Enabled + wkt::Clock> Sleep<C> for Regular<T, P> {
    open spec fn timer_log(&self) -> Seq<TimerOp> {
        self.spec_wkt().log()
    }

    fn sleep(&mut self, ticks: Ticks<C>)
        ensures
            ticks.value == 0 ==> *final(self) == *old(self),
            ticks.value > 0 ==> exists|k: nat|
                final(self).spec_wkt().log() == old(self).spec_wkt().log() + regular_trace(
                    C::spec_id(),
                    ticks.value,
                    k,
                ) && final(self).spec_pmu().sleep_count() == old(self).spec_pmu().sleep_count()
                    + k,
    {
        // If we try to sleep for zero ticks, we'd never wake up again.
        if ticks.value == 0 {
            return ;
        }
        let ghost pre = self.wkt.log();
        let ghost pre_sleeps = self.pmu.sleep_count();
        self.wkt.select_clock::<C>();
        self.wkt.enable_interrupt(&self.nvic);
        self.wkt.set_timeout(ticks.value);
        let ghost setup = seq![
            TimerOp::SelectClock { clock: C::spec_id() },
            TimerOp::EnableInterrupt,
            TimerOp::SetTimeout { ticks: ticks.value },
        ];
        let ghost armed = self.wkt.log();
        proof {
            assert(armed =~= pre + setup);
            assert(armed + fail_seq(0) =~= armed);
        }
        let ghost mut failures: nat = 0;
        let mut done = false;
        while !done
            invariant
                done ==> self.wkt.log() == armed + wait_seq(failures),
                !done ==> self.wkt.log() == armed + fail_seq(failures),
                self.pmu.sleep_count() == pre_sleeps + failures,
            decreases self.wkt.poll_bound(), (if done { 0int } else { 1int }),
        {
            match self.wkt.wait() {
                Ok(_) => {
                    proof {
                        assert(self.wkt.log() =~= armed + wait_seq(failures));
                    }
                    done = true;
                },
                Err(nb::Error::WouldBlock) => {
                    proof {
                        failures = failures + 1;
                        assert(fail_seq(failures) =~= fail_seq((failures - 1) as nat).push(
                            TimerOp::Wait { elapsed: false },
                        ));
                        assert(self.wkt.log() =~= armed + fail_seq(failures));
                    }
                    self.pmu.enter_sleep_mode(&self.scb);
                },
                Err(nb::Error::Other(_)) => {
                    // The timer's poll can only fail with the would-block
                    // signal, so this arm is unreachable.
                    proof {
                        assert(false);
                    }
                },
            }
        }
        proof {
            assert(self.wkt.log() =~= pre + (setup + wait_seq(failures)));
            assert(self.wkt.log() == pre + regular_trace(C::spec_id(), ticks.value, failures));
            lemma_setup_then_polls(pre, setup, ticks.value, failures);
        }
    }
}

} // verus!
