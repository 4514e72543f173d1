//! Marker types naming each GPIO line of the chip, and the mapping from
//! marker to line number.

use vstd::prelude::*;

verus! {

/// A type-level name for one GPIO line.
pub trait PicoPin {
    /// The number of the line this marker names.
    spec fn pin_id() -> int;

    /// The number of the line this marker names.
    fn id() -> (n: u8)
        ensures
            n as int == Self::pin_id(),
    ;
}

/// GPIO line 0.
pub struct GPIO0;

/// GPIO line 1.
pub struct GPIO1;

/// GPIO line 2.
pub struct GPIO2;

/// GPIO line 3.
pub struct GPIO3;

/// GPIO line 4.
pub struct GPIO4;

/// GPIO line 5.
pub struct GPIO5;

/// GPIO line 6.
pub struct GPIO6;

/// GPIO line 7.
pub struct GPIO7;

/// GPIO line 8.
pub struct GPIO8;

/// GPIO line 9.
pub struct GPIO9;

/// GPIO line 10.
pub struct GPIO10;

/// GPIO line 11.
pub struct GPIO11;

/// GPIO line 12.
pub struct GPIO12;

/// GPIO line 13.
pub struct GPIO13;

/// GPIO line 14.
pub struct GPIO14;

/// GPIO line 15.
pub struct GPIO15;

/// GPIO line 16.
pub struct GPIO16;

/// GPIO line 17.
pub struct GPIO17;

/// GPIO line 18.
pub struct GPIO18;

/// GPIO line 19.
pub struct GPIO19;

/// GPIO line 20.
pub struct GPIO20;

/// GPIO line 21.
pub struct GPIO21;

/// GPIO line 22.
pub struct GPIO22;

/// GPIO line 23.
pub struct GPIO23;

/// GPIO line 24.
pub struct GPIO24;

/// GPIO line 25.
pub struct GPIO25;

/// GPIO line 26.
pub struct GPIO26;

/// GPIO line 27.
pub struct GPIO27;

/// GPIO line 28.
pub struct GPIO28;

/// GPIO line 29.
pub struct GPIO29;

impl PicoPin for GPIO0 {
    open spec fn pin_id() -> int {
        0
    }

    fn id() -> (n: u8) {
        0
    }
}

impl PicoPin for GPIO1 {
    open spec fn pin_id() -> int {
        1
    }

    fn id() -> (n: u8) {
        1
    }
}

impl PicoPin for GPIO2 {
    open spec fn pin_id() -> int {
        2
    }

    fn id() -> (n: u8) {
        2
    }
}

impl PicoPin for GPIO3 {
    open spec fn pin_id() -> int {
        3
    }

    fn id() -> (n: u8) {
        3
    }
}

impl PicoPin for GPIO4 {
    open spec fn pin_id() -> int {
        4
    }

    fn id() -> (n: u8) {
        4
    }
}

impl PicoPin for GPIO5 {
    open spec fn pin_id() -> int {
        5
    }

    fn id() -> (n: u8) {
        5
    }
}

impl PicoPin for GPIO6 {
    open spec fn pin_id() -> int {
        6
    }

    fn id() -> (n: u8) {
        6
    }
}

impl PicoPin for GPIO7 {
    open spec fn pin_id() -> int {
        7
    }

    fn id() -> (n: u8) {
        7
    }
}

impl PicoPin for GPIO8 {
    open spec fn pin_id() -> int {
        8
    }

    fn id() -> (n: u8) {
        8
    }
}

impl PicoPin for GPIO9 {
    open spec fn pin_id() -> int {
        9
    }

    fn id() -> (n: u8) {
        9
    }
}

impl PicoPin for GPIO10 {
    open spec fn pin_id() -> int {
        10
    }

    fn id() -> (n: u8) {
        10
    }
}

impl PicoPin for GPIO11 {
    open spec fn pin_id() -> int {
        11
    }

    fn id() -> (n: u8) {
        11
    }
}

impl PicoPin for GPIO12 {
    open spec fn pin_id() -> int {
        12
    }

    fn id() -> (n: u8) {
        12
    }
}

impl PicoPin for GPIO13 {
    open spec fn pin_id() -> int {
        13
    }

    fn id() -> (n: u8) {
        13
    }
}

impl PicoPin for GPIO14 {
    open spec fn pin_id() -> int {
        14
    }

    fn id() -> (n: u8) {
        14
    }
}

impl PicoPin for GPIO15 {
    open spec fn pin_id() -> int {
        15
    }

    fn id() -> (n: u8) {
        15
    }
}

impl PicoPin for GPIO16 {
    open spec fn pin_id() -> int {
        16
    }

    fn id() -> (n: u8) {
        16
    }
}

impl PicoPin for GPIO17 {
    open spec fn pin_id() -> int {
        17
    }

    fn id() -> (n: u8) {
        17
    }
}

impl PicoPin for GPIO18 {
    open spec fn pin_id() -> int {
        18
    }

    fn id() -> (n: u8) {
        18
    }
}

impl PicoPin for GPIO19 {
    open spec fn pin_id() -> int {
        19
    }

    fn id() -> (n: u8) {
        19
    }
}

impl PicoPin for GPIO20 {
    open spec fn pin_id() -> int {
        20
    }

    fn id() -> (n: u8) {
        20
    }
}

impl PicoPin for GPIO21 {
    open spec fn pin_id() -> int {
        21
    }

    fn id() -> (n: u8) {
        21
    }
}

impl PicoPin for GPIO22 {
    open spec fn pin_id() -> int {
        22
    }

    fn id() -> (n: u8) {
        22
    }
}

impl PicoPin for GPIO23 {
    open spec fn pin_id() -> int {
        23
    }

    fn id() -> (n: u8) {
        23
    }
}

impl PicoPin for GPIO24 {
    open spec fn pin_id() -> int {
        24
    }

    fn id() -> (n: u8) {
        24
    }
}

impl PicoPin for GPIO25 {
    open spec fn pin_id() -> int {
        25
    }

    fn id() -> (n: u8) {
        25
    }
}

impl PicoPin for GPIO26 {
    open spec fn pin_id() -> int {
        26
    }

    fn id() -> (n: u8) {
        26
    }
}

impl PicoPin for GPIO27 {
    open spec fn pin_id() -> int {
        27
    }

    fn id() -> (n: u8) {
        27
    }
}

impl PicoPin for GPIO28 {
    open spec fn pin_id() -> int {
        28
    }

    fn id() -> (n: u8) {
        28
    }
}

impl PicoPin for GPIO29 {
    open spec fn pin_id() -> int {
        29
    }

    fn id() -> (n: u8) {
        29
    }
}

} // verus!
