//! The pins usable on the first inter-integrated-circuit block. Callers
//! select from these enumerations, so every request they can form is valid
//! by construction against the compatibility table.

use vstd::prelude::*;

use crate::compat::Role;
use crate::compat::pin_valid_for;
use crate::resource::PeripheralKind;

verus! {

/// The GPIO lines that may serve as the data line.
#[derive(Clone, Copy, PartialEq, Eq, Structural, Debug)]
pub enum SDAPins {
    Gpio0,
    Gpio4,
    Gpio8,
    Gpio12,
    Gpio16,
    Gpio20,
}

impl SDAPins {
    /// The number of the GPIO line this choice names.
    pub open spec fn pin_spec(self) -> u8 {
        match self {
            SDAPins::Gpio0 => 0,
            SDAPins::Gpio4 => 4,
            SDAPins::Gpio8 => 8,
            SDAPins::Gpio12 => 12,
            SDAPins::Gpio16 => 16,
            SDAPins::Gpio20 => 20,
        }
    }

    /// The number of the GPIO line this choice names; always a valid data
    /// pin of the block.
    pub fn pin(self) -> (n: u8)
        ensures
            n == self.pin_spec(),
            pin_valid_for(PeripheralKind::I2C0, Role::Data, n),
    {
        match self {
            SDAPins::Gpio0 => 0,
            SDAPins::Gpio4 => 4,
            SDAPins::Gpio8 => 8,
            SDAPins::Gpio12 => 12,
            SDAPins::Gpio16 => 16,
            SDAPins::Gpio20 => 20,
        }
    }
}

impl Default for SDAPins {
    /// The conventional data pin of the block.
    fn default() -> (r: Self)
        ensures
            r == SDAPins::Gpio4,
    {
        SDAPins::Gpio4
    }
}

/// The GPIO lines that may serve as the clock line.
#[derive(Clone, Copy, PartialEq, Eq, Structural, Debug)]
pub enum SCLPins {
    Gpio1,
    Gpio5,
    Gpio9,
    Gpio13,
    Gpio17,
    Gpio21,
}

impl SCLPins {
    /// The number of the GPIO line this choice names.
    pub open spec fn pin_spec(self) -> u8 {
        match self {
            SCLPins::Gpio1 => 1,
            SCLPins::Gpio5 => 5,
            SCLPins::Gpio9 => 9,
            SCLPins::Gpio13 => 13,
            SCLPins::Gpio17 => 17,
            SCLPins::Gpio21 => 21,
        }
    }

    /// The number of the GPIO line this choice names; always a valid clock
    /// pin of the block.
    pub fn pin(self) -> (n: u8)
        ensures
            n == self.pin_spec(),
            pin_valid_for(PeripheralKind::I2C0, Role::Clock, n),
    {
        match self {
            SCLPins::Gpio1 => 1,
            SCLPins::Gpio5 => 5,
            SCLPins::Gpio9 => 9,
            SCLPins::Gpio13 => 13,
            SCLPins::Gpio17 => 17,
            SCLPins::Gpio21 => 21,
        }
    }
}

impl Default for SCLPins {
    /// The conventional clock pin of the block.
    fn default() -> (r: Self)
        ensures
            r == SCLPins::Gpio5,
    {
        SCLPins::Gpio5
    }
}

} // verus!
