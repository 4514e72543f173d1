//! The pins usable on the second serial block.

use vstd::prelude::*;

use crate::compat::Role;
use crate::compat::pin_valid_for;
use crate::resource::PeripheralKind;

verus! {

/// The GPIO lines that may serve as the transmit line.
#[derive(Clone, Copy, PartialEq, Eq, Structural, Debug)]
pub enum TxPins {
    Gpio4,
    Gpio8,
}

impl TxPins {
    /// The number of the GPIO line this choice names.
    pub open spec fn pin_spec(self) -> u8 {
        match self {
            TxPins::Gpio4 => 4,
            TxPins::Gpio8 => 8,
        }
    }

    /// The number of the GPIO line this choice names; always a valid
    /// transmit pin of the block.
    pub fn pin(self) -> (n: u8)
        ensures
            n == self.pin_spec(),
            pin_valid_for(PeripheralKind::UART1, Role::Transmit, n),
    {
        match self {
            TxPins::Gpio4 => 4,
            TxPins::Gpio8 => 8,
        }
    }
}

/// The GPIO lines that may serve as the receive line.
#[derive(Clone, Copy, PartialEq, Eq, Structural, Debug)]
pub enum RxPins {
    Gpio5,
    Gpio9,
}

impl RxPins {
    /// The number of the GPIO line this choice names.
    pub open spec fn pin_spec(self) -> u8 {
        match self {
            RxPins::Gpio5 => 5,
            RxPins::Gpio9 => 9,
        }
    }

    /// The number of the GPIO line this choice names; always a valid
    /// receive pin of the block.
    pub fn pin(self) -> (n: u8)
        ensures
            n == self.pin_spec(),
            pin_valid_for(PeripheralKind::UART1, Role::Receive, n),
    {
        match self {
            RxPins::Gpio5 => 5,
            RxPins::Gpio9 => 9,
        }
    }
}

} // verus!
