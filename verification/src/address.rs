//! The target address of a device on an inter-integrated-circuit bus.

use vstd::prelude::*;

verus! {

/// A seven-bit device address, carried as supplied.
#[derive(Clone, Copy, PartialEq, Eq, Structural, Debug)]
pub struct I2CAddress(pub u8);

impl I2CAddress {
    /// Wraps an address.
    pub fn new(address: u8) -> (r: I2CAddress)
        ensures
            r.0 == address,
    {
        I2CAddress(address)
    }

    /// The wrapped address.
    pub fn get(&self) -> (a: u8)
        ensures
            a == self.0,
    {
        self.0
    }
}

} // verus!
