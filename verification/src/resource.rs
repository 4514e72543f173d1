//! Identities of the physical resources that can be claimed: the
//! communication peripherals and the GPIO lines, numbered `0..30`.

use vstd::prelude::*;

verus! {

/// Number of GPIO lines on the chip; valid pin numbers are `0..30`.
pub const PIN_COUNT: usize = 30;

/// One physical communication block.
#[derive(Clone, Copy, PartialEq, Eq, Structural, Debug)]
pub enum PeripheralKind {
    I2C0,
    I2C1,
    UART0,
    UART1,
}

/// Identity of one claimable physical resource: a peripheral block or a
/// single GPIO line.
#[derive(Clone, Copy, PartialEq, Eq, Structural, Debug)]
pub enum ResourceId {
    Peripheral(PeripheralKind),
    Pin(u8),
}

} // verus!
