//! Recording stand-ins for the hardware collaborators
//!
//! A [`MockTimer`] answers a scripted number of polls with "not yet elapsed"
//! before reporting completion, and both mocks keep an observable record of
//! every operation driven into them. They implement the same contracts as the
//! hardware drivers, so the sleep strategies can be exercised and their
//! register-level operation sequences inspected on any host.

use vstd::prelude::*;

use crate::nvic::Nvic;
use crate::pmu::Pmu;
use crate::scb::Scb;
use crate::wkt::{Clock, TimerOp, WakeupTimer};

verus! {

/// A wake-up timer that records its operations
///
/// Polling reports "not yet elapsed" a scripted number of times and
/// completion from then on.
pub struct MockTimer {
    calls: Vec<TimerOp>,
    pending: u32,
}

impl MockTimer {
    /// How many more polls will report "not yet elapsed"
    pub closed spec fn spec_pending(&self) -> u32 {
        self.pending
    }

    /// Creates a timer whose next `would_block_polls` polls report
    /// "not yet elapsed"
    pub fn new(would_block_polls: u32) -> (t: MockTimer)
        ensures
            t.log() == Seq::<TimerOp>::empty(),
            t.spec_pending() == would_block_polls,
    {
        MockTimer {
            calls: Vec::new(),
            pending: would_block_polls,
        }
    }

    /// The operations recorded so far, oldest first
    pub fn calls(&self) -> (calls: &Vec<TimerOp>)
        ensures
            calls@ == self.log(),
    {
        &self.calls
    }
}

impl WakeupTimer for MockTimer {
    closed spec fn log(&self) -> Seq<TimerOp> {
        self.calls@
    }

    closed spec fn poll_bound(&self) -> nat {
        self.pending as nat
    }

    fn select_clock<C: Clock>(&mut self)
        ensures
            final(self).spec_pending() == old(self).spec_pending(),
    {
        self.calls.push(TimerOp::SelectClock { clock: C::id() });
    }

    fn enable_interrupt(&mut self, nvic: &Nvic)
        ensures
            final(self).spec_pending() == old(self).spec_pending(),
    {
        self.calls.push(TimerOp::EnableInterrupt);
    }

    fn set_timeout(&mut self, ticks: u32)
        ensures
            final(self).spec_pending() == old(self).spec_pending(),
    {
        self.calls.push(TimerOp::SetTimeout { ticks });
    }

    fn wait(&mut self) -> (r: Result<(), nb::Error<()>>)
        ensures
            r is Ok <==> old(self).spec_pending() == 0,
            old(self).spec_pending() > 0 ==>
                final(self).spec_pending() == old(self).spec_pending() - 1,
            old(self).spec_pending() == 0 ==> final(self).spec_pending() == 0,
    {
        if self.pending > 0 {
            self.pending = self.pending - 1;
            self.calls.push(TimerOp::Wait { elapsed: false });
            Err(nb::Error::WouldBlock)
        } else {
            self.calls.push(TimerOp::Wait { elapsed: true });
            Ok(())
        }
    }
}

/// A power management unit that records its operations
///
/// Entering the low-power mode returns at once; only the count of entries is
/// of interest.
pub struct MockPmu {
    entries: Vec<PmuOp>,
}

/// One operation on the power management unit
#[derive(Clone, Copy, PartialEq, Eq, Structural, Debug)]
pub enum PmuOp {
    /// The processor entered and left the low-power mode
    EnterSleepMode,
}

impl MockPmu {
    /// Creates a power management unit with an empty record
    pub fn new() -> (p: MockPmu)
        ensures
            p.sleep_count() == 0,
    {
        MockPmu {
            entries: Vec::new(),
        }
    }

    /// How many times the low-power mode was entered
    pub fn times_entered(&self) -> (n: usize)
        ensures
            n == self.sleep_count(),
    {
        self.entries.len()
    }
}

impl Pmu for MockPmu {
    closed spec fn sleep_count(&self) -> nat {
        self.entries@.len()
    }

    fn enter_sleep_mode(&mut self, scb: &Scb) {
        self.entries.push(PmuOp::EnterSleepMode);
    }
}

} // verus!
