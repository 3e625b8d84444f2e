//! Type states for peripherals and clocks
//!
//! Zero-sized tokens that record, in the type of a peripheral or clock
//! handle, how far its initialization has progressed. They carry no run-time
//! data; holding a handle whose state type is [`Enabled`] or [`Initialized`]
//! is the compile-time proof that the corresponding hardware setup has been
//! done.

use vstd::prelude::*;

verus! {

/// Implemented for all type states
pub trait InitState {}

/// The peripheral or clock is in an unknown state, e.g. right after reset
pub struct Unknown;

/// The peripheral has been initialized
pub struct Initialized;

/// The clock or peripheral has been switched on
pub struct Enabled;

/// The clock or peripheral has been switched off
pub struct Disabled;

impl InitState for Unknown {}

impl InitState for Initialized {}

impl InitState for Enabled {}

impl InitState for Disabled {}

} // verus!
