//! The pins usable on the first serial block.

use vstd::prelude::*;

use crate::compat::Role;
use crate::compat::pin_valid_for;
use crate::resource::PeripheralKind;

verus! {

/// The GPIO lines that may serve as the transmit line.
#[derive(Clone, Copy, PartialEq, Eq, Structural, Debug)]
pub enum TxPins {
    Gpio0,
    Gpio12,
    Gpio16,
}

impl TxPins {
    /// The number of the GPIO line this choice names.
    pub open spec fn pin_spec(self) -> u8 {
        match self {
            TxPins::Gpio0 => 0,
            TxPins::Gpio12 => 12,
            TxPins::Gpio16 => 16,
        }
    }

    /// The number of the GPIO line this choice names; always a valid
    /// transmit pin of the block.
    pub fn pin(self) -> (n: u8)
        ensures
            n == self.pin_spec(),
            pin_valid_for(PeripheralKind::UART0, Role::Transmit, n),
    {
        match self {
            TxPins::Gpio0 => 0,
            TxPins::Gpio12 => 12,
            TxPins::Gpio16 => 16,
        }
    }
}

impl Default for TxPins {
    /// The conventional transmit pin of the block.
    fn default() -> (r: Self)
        ensures
            r == TxPins::Gpio0,
    {
        TxPins::Gpio0
    }
}

/// The GPIO lines that may serve as the receive line.
#[derive(Clone, Copy, PartialEq, Eq, Structural, Debug)]
pub enum RxPins {
    Gpio1,
    Gpio13,
    Gpio17,
}

impl RxPins {
    /// The number of the GPIO line this choice names.
    pub open spec fn pin_spec(self) -> u8 {
        match self {
            RxPins::Gpio1 => 1,
            RxPins::Gpio13 => 13,
            RxPins::Gpio17 => 17,
        }
    }

    /// The number of the GPIO line this choice names; always a valid
    /// receive pin of the block.
    pub fn pin(self) -> (n: u8)
        ensures
            n == self.pin_spec(),
            pin_valid_for(PeripheralKind::UART0, Role::Receive, n),
    {
        match self {
            RxPins::Gpio1 => 1,
            RxPins::Gpio13 => 13,
            RxPins::Gpio17 => 17,
        }
    }
}

impl Default for RxPins {
    /// The conventional receive pin of the block.
    fn default() -> (r: Self)
        ensures
            r == RxPins::Gpio1,
    {
        RxPins::Gpio1
    }
}

} // verus!
