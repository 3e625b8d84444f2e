//! Interface to the self-wake-up timer (WKT)
//!
//! The WKT is a single countdown register: software selects a source clock,
//! optionally arms the timer's interrupt, loads a tick count, and then polls
//! a non-blocking "has it elapsed" flag. This module states that contract as
//! a trait whose methods carry their effect on a ghost log of operations, so
//! that code driving the timer can be verified against the exact sequence of
//! register-level operations it performs.

use vstd::prelude::*;

use crate::nvic::Nvic;

verus! {

/// Marker for clocks the wake-up timer can count
///
/// Only a few of the microcontroller's clocks can be routed to the WKT; each
/// of them has a source selector value, which this trait exposes.
pub trait Clock {
    /// The clock's source selector value at the timer
    spec fn spec_id() -> u8;

    /// Returns the clock's source selector value at the timer
    fn id() -> (r: u8)
        ensures
            r == Self::spec_id(),
    ;
}

/// One register-level operation on the wake-up timer
///
/// The operations a timer records are the unit in which the sleep strategies'
/// contracts are stated.
#[derive(Clone, Copy, PartialEq, Eq, Structural, Debug)]
pub enum TimerOp {
    /// The timer's source clock was selected
    SelectClock { clock: u8 },
    /// The timer's interrupt path was armed
    EnableInterrupt,
    /// The countdown was loaded with a tick count
    SetTimeout { ticks: u32 },
    /// The elapsed flag was polled; `elapsed` is what the poll reported
    Wait { elapsed: bool },
}

/// The wake-up timer's register-level contract
///
/// Every operation appends itself to the timer's ghost log, so a driver's
/// postcondition can pin down exactly which operations ran and in what order.
/// Polling reports "elapsed" or the would-block signal and nothing else; when
/// it reports elapsed is the hardware's business, so `wait` promises nothing
/// about which of the two comes back.
pub trait WakeupTimer: Sized {
    /// The log of operations performed on this timer, oldest first
    spec fn log(&self) -> Seq<TimerOp>;

    /// An upper bound on how many more polls can report "not yet elapsed"
    ///
    /// A countdown, once armed, elapses after a bounded time, so only
    /// boundedly many polls can come back with the would-block signal. This
    /// ghost measure states that obligation of the hardware; a caller polling
    /// in a loop sinks it to prove the loop finishes.
    spec fn poll_bound(&self) -> nat;

    /// Selects `C` as the clock the countdown is driven by
    fn select_clock<C: Clock>(&mut self)
        ensures
            final(self).log() == old(self).log().push(TimerOp::SelectClock { clock: C::spec_id() }),
    ;

    /// Arms the timer's interrupt path at the interrupt controller
    fn enable_interrupt(&mut self, nvic: &Nvic)
        ensures
            final(self).log() == old(self).log().push(TimerOp::EnableInterrupt),
    ;

    /// Loads the countdown register, which starts it counting
    ///
    /// A zero countdown on this hardware never reports "elapsed", so the
    /// caller must have ruled it out.
    fn set_timeout(&mut self, ticks: u32)
        requires
            ticks > 0,
        ensures
            final(self).log() == old(self).log().push(TimerOp::SetTimeout { ticks }),
    ;

    /// Polls the elapsed flag without blocking
    ///
    /// Returns `Ok` once the loaded countdown has elapsed and the would-block
    /// signal while it has not.
    fn wait(&mut self) -> (r: Result<(), nb::Error<()>>)
        ensures
            final(self).log() == old(self).log().push(TimerOp::Wait { elapsed: r is Ok }),
            r matches Err(e) ==> e is WouldBlock,
            !(r is Ok) ==> final(self).poll_bound() < old(self).poll_bound(),
            r is Ok ==> final(self).poll_bound() <= old(self).poll_bound(),
    ;
}

/// The would-block signal of the non-blocking poll, `nb::Error`
///
/// Relies on the `nb` crate only for the type's definition: an error is
/// either `WouldBlock`, "not done yet, retry later", or `Other` with the
/// operation's own error, which the wake-up timer never produces.
#[verifier::external_type_specification]
pub struct ExNbError<E>(nb::Error<E>);

} // verus!
