//! Pin names
//!
//! Each pin of the device's one port is a zero-sized type implementing
//! [`PinName`], whose number is what the switch matrix writes into a
//! pin-assign slot to route a movable function to that pin.

use vstd::prelude::*;

verus! {

/// Implemented for types that represent pins
pub trait PinName {
    /// The pin's number
    spec fn spec_id() -> u8;

    /// Returns the pin's number
    fn id() -> (r: u8)
        ensures
            r == Self::spec_id(),
    ;
}

/// The pin PIO0_0
pub struct PIO0_0;

/// The pin PIO0_1
pub struct PIO0_1;

/// The pin PIO0_2
pub struct PIO0_2;

/// The pin PIO0_3
pub struct PIO0_3;

/// The pin PIO0_4
pub struct PIO0_4;

/// The pin PIO0_5
pub struct PIO0_5;

impl PinName for PIO0_0 {
    open spec fn spec_id() -> u8 {
        0
    }

    fn id() -> u8 {
        0
    }
}

impl PinName for PIO0_1 {
    open spec fn spec_id() -> u8 {
        1
    }

    fn id() -> u8 {
        1
    }
}

impl PinName for PIO0_2 {
    open spec fn spec_id() -> u8 {
        2
    }

    fn id() -> u8 {
        2
    }
}

impl PinName for PIO0_3 {
    open spec fn spec_id() -> u8 {
        3
    }

    fn id() -> u8 {
        3
    }
}

impl PinName for PIO0_4 {
    open spec fn spec_id() -> u8 {
        4
    }

    fn id() -> u8 {
        4
    }
}

impl PinName for PIO0_5 {
    open spec fn spec_id() -> u8 {
        5
    }

    fn id() -> u8 {
        5
    }
}

} // verus!
