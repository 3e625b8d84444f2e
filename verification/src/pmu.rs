//! Interface to the power management unit (PMU)
//!
//! The PMU offers the sleep subsystem a single operation: halt the processor
//! until some enabled wake event fires. The trait records how often that
//! operation ran, which is all the interrupt-driven sleep strategy's contract
//! needs: it promises one halt per poll that reported "not yet elapsed".

use vstd::prelude::*;

use crate::scb::Scb;

verus! {

/// The power management unit's contract
///
/// Entering the low-power mode halts the processor until any enabled wake
/// event fires; nothing is promised about which wake source ends the halt.
/// The ghost count of completed halts is the unit in which the
/// interrupt-driven sleep strategy's contract is stated.
pub trait Pmu: Sized {
    /// How many times the processor entered and left the low-power mode
    spec fn sleep_count(&self) -> nat;

    /// Halts the processor until some enabled wake event fires
    ///
    /// Returns once the processor has resumed. If no enabled wake source ever
    /// fires, the call never returns; ruling that out is the caller's
    /// obligation.
    fn enter_sleep_mode(&mut self, scb: &Scb)
        ensures
            final(self).sleep_count() == old(self).sleep_count() + 1,
    ;
}

} // verus!
