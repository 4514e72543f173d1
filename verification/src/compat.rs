//! The static compatibility table: which GPIO lines may serve which role on
//! which peripheral block. The table is fixed data; lookup never fails and
//! never mutates anything, and it is the single source of truth for which
//! requests a caller may make.

use vstd::prelude::*;

use crate::resource::PeripheralKind;

verus! {

/// A role a pin can serve on a peripheral: the data or clock line of an
/// inter-integrated-circuit block, or the transmit or receive line of a
/// serial block.
#[derive(Clone, Copy, PartialEq, Eq, Structural, Debug)]
pub enum Role {
    Data,
    Clock,
    Transmit,
    Receive,
}

/// The pins legally usable for `role` on `kind`, in their enumerated order.
/// Roles a block does not require have no usable pins.
pub open spec fn role_pin_list(kind: PeripheralKind, role: Role) -> Seq<u8> {
    match (kind, role) {
        (PeripheralKind::I2C0, Role::Data) => seq![0u8, 4u8, 8u8, 12u8, 16u8, 20u8],
        (PeripheralKind::I2C0, Role::Clock) => seq![1u8, 5u8, 9u8, 13u8, 17u8, 21u8],
        (PeripheralKind::I2C1, Role::Data) => seq![2u8, 6u8, 10u8, 14u8, 18u8, 26u8],
        (PeripheralKind::I2C1, Role::Clock) => seq![3u8, 7u8, 11u8, 15u8, 19u8, 27u8],
        (PeripheralKind::UART0, Role::Transmit) => seq![0u8, 12u8, 16u8],
        (PeripheralKind::UART0, Role::Receive) => seq![1u8, 13u8, 17u8],
        (PeripheralKind::UART1, Role::Transmit) => seq![4u8, 8u8],
        (PeripheralKind::UART1, Role::Receive) => seq![5u8, 9u8],
        _ => Seq::empty(),
    }
}

/// Whether pin `p` may serve `role` on `kind`.
pub open spec fn pin_valid_for(kind: PeripheralKind, role: Role, p: u8) -> bool {
    match (kind, role) {
        (PeripheralKind::I2C0, Role::Data) => p == 0 || p == 4 || p == 8 || p == 12 || p == 16
            || p == 20,
        (PeripheralKind::I2C0, Role::Clock) => p == 1 || p == 5 || p == 9 || p == 13 || p == 17
            || p == 21,
        (PeripheralKind::I2C1, Role::Data) => p == 2 || p == 6 || p == 10 || p == 14 || p == 18
            || p == 26,
        (PeripheralKind::I2C1, Role::Clock) => p == 3 || p == 7 || p == 11 || p == 15 || p == 19
            || p == 27,
        (PeripheralKind::UART0, Role::Transmit) => p == 0 || p == 12 || p == 16,
        (PeripheralKind::UART0, Role::Receive) => p == 1 || p == 13 || p == 17,
        (PeripheralKind::UART1, Role::Transmit) => p == 4 || p == 8,
        (PeripheralKind::UART1, Role::Receive) => p == 5 || p == 9,
        _ => false,
    }
}

/// The enumerated pin list and the validity predicate agree: a pin is valid
/// for a role exactly when the table lists it.
pub proof fn lemma_table_validity(kind: PeripheralKind, role: Role)
    ensures
        forall|p: u8| role_pin_list(kind, role).contains(p) <==> pin_valid_for(kind, role, p),
{
    let l = role_pin_list(kind, role);
    assert forall|p: u8| l.contains(p) implies pin_valid_for(kind, role, p) by {
        let j = choose|j: int| 0 <= j < l.len() && l[j] == p;
    }
    assert forall|p: u8| pin_valid_for(kind, role, p) implies l.contains(p) by {
        if pin_valid_for(kind, role, p) {
            if l.len() > 0 && p == l[0] {
                assert(l.contains(p));
            } else if l.len() > 1 && p == l[1] {
                assert(l.contains(p));
            } else if l.len() > 2 && p == l[2] {
                assert(l.contains(p));
            } else if l.len() > 3 && p == l[3] {
                assert(l.contains(p));
            } else if l.len() > 4 && p == l[4] {
                assert(l.contains(p));
            } else if l.len() > 5 && p == l[5] {
                assert(l.contains(p));
            }
        }
    }
}

/// Decides whether pin `p` may serve `role` on `kind`.
pub fn pin_allowed(kind: PeripheralKind, role: Role, p: u8) -> (b: bool)
    ensures
        b == pin_valid_for(kind, role, p),
{
    match (kind, role) {
        (PeripheralKind::I2C0, Role::Data) => p == 0 || p == 4 || p == 8 || p == 12 || p == 16
            || p == 20,
        (PeripheralKind::I2C0, Role::Clock) => p == 1 || p == 5 || p == 9 || p == 13 || p == 17
            || p == 21,
        (PeripheralKind::I2C1, Role::Data) => p == 2 || p == 6 || p == 10 || p == 14 || p == 18
            || p == 26,
        (PeripheralKind::I2C1, Role::Clock) => p == 3 || p == 7 || p == 11 || p == 15 || p == 19
            || p == 27,
        (PeripheralKind::UART0, Role::Transmit) => p == 0 || p == 12 || p == 16,
        (PeripheralKind::UART0, Role::Receive) => p == 1 || p == 13 || p == 17,
        (PeripheralKind::UART1, Role::Transmit) => p == 4 || p == 8,
        (PeripheralKind::UART1, Role::Receive) => p == 5 || p == 9,
        _ => false,
    }
}

/// Looks up the pins legally usable for `role` on `kind`, in their
/// enumerated order. A pure lookup: it never fails and changes nothing.
pub fn valid_pins(kind: PeripheralKind, role: Role) -> (r: Vec<u8>)
    ensures
        r@ == role_pin_list(kind, role),
        forall|p: u8| r@.contains(p) <==> pin_valid_for(kind, role, p),
{
    let mut v: Vec<u8> = Vec::new();
    match (kind, role) {
        (PeripheralKind::I2C0, Role::Data) => {
            v.push(0);
            v.push(4);
            v.push(8);
            v.push(12);
            v.push(16);
            v.push(20);
        },
        (PeripheralKind::I2C0, Role::Clock) => {
            v.push(1);
            v.push(5);
            v.push(9);
            v.push(13);
            v.push(17);
            v.push(21);
        },
        (PeripheralKind::I2C1, Role::Data) => {
            v.push(2);
            v.push(6);
            v.push(10);
            v.push(14);
            v.push(18);
            v.push(26);
        },
        (PeripheralKind::I2C1, Role::Clock) => {
            v.push(3);
            v.push(7);
            v.push(11);
            v.push(15);
            v.push(19);
            v.push(27);
        },
        (PeripheralKind::UART0, Role::Transmit) => {
            v.push(0);
            v.push(12);
            v.push(16);
        },
        (PeripheralKind::UART0, Role::Receive) => {
            v.push(1);
            v.push(13);
            v.push(17);
        },
        (PeripheralKind::UART1, Role::Transmit) => {
            v.push(4);
            v.push(8);
        },
        (PeripheralKind::UART1, Role::Receive) => {
            v.push(5);
            v.push(9);
        },
        _ => {},
    }
    proof {
        assert(v@ =~= role_pin_list(kind, role));
        lemma_table_validity(kind, role);
    }
    v
}

} // verus!
