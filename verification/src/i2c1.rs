//! The pins usable on the second inter-integrated-circuit block.

use vstd::prelude::*;

use crate::compat::Role;
use crate::compat::pin_valid_for;
use crate::resource::PeripheralKind;

verus! {

/// The GPIO lines that may serve as the data line.
#[derive(Clone, Copy, PartialEq, Eq, Structural, Debug)]
pub enum SDAPins {
    Gpio2,
    Gpio6,
    Gpio10,
    Gpio14,
    Gpio18,
    Gpio26,
}

impl SDAPins {
    /// The number of the GPIO line this choice names.
    pub open spec fn pin_spec(self) -> u8 {
        match self {
            SDAPins::Gpio2 => 2,
            SDAPins::Gpio6 => 6,
            SDAPins::Gpio10 => 10,
            SDAPins::Gpio14 => 14,
            SDAPins::Gpio18 => 18,
            SDAPins::Gpio26 => 26,
        }
    }

    /// The number of the GPIO line this choice names; always a valid data
    /// pin of the block.
    pub fn pin(self) -> (n: u8)
        ensures
            n == self.pin_spec(),
            pin_valid_for(PeripheralKind::I2C1, Role::Data, n),
    {
        match self {
            SDAPins::Gpio2 => 2,
            SDAPins::Gpio6 => 6,
            SDAPins::Gpio10 => 10,
            SDAPins::Gpio14 => 14,
            SDAPins::Gpio18 => 18,
            SDAPins::Gpio26 => 26,
        }
    }
}

/// The GPIO lines that may serve as the clock line.
#[derive(Clone, Copy, PartialEq, Eq, Structural, Debug)]
pub enum SCLPins {
    Gpio3,
    Gpio7,
    Gpio11,
    Gpio15,
    Gpio19,
    Gpio27,
}

impl SCLPins {
    /// The number of the GPIO line this choice names.
    pub open spec fn pin_spec(self) -> u8 {
        match self {
            SCLPins::Gpio3 => 3,
            SCLPins::Gpio7 => 7,
            SCLPins::Gpio11 => 11,
            SCLPins::Gpio15 => 15,
            SCLPins::Gpio19 => 19,
            SCLPins::Gpio27 => 27,
        }
    }

    /// The number of the GPIO line this choice names; always a valid clock
    /// pin of the block.
    pub fn pin(self) -> (n: u8)
        ensures
            n == self.pin_spec(),
            pin_valid_for(PeripheralKind::I2C1, Role::Clock, n),
    {
        match self {
            SCLPins::Gpio3 => 3,
            SCLPins::Gpio7 => 7,
            SCLPins::Gpio11 => 11,
            SCLPins::Gpio15 => 15,
            SCLPins::Gpio19 => 19,
            SCLPins::Gpio27 => 27,
        }
    }
}

} // verus!
