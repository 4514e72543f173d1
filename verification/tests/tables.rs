//! The compatibility table reproduced exactly, and the validity check that
//! agrees with it.

use pico_bus::PeripheralKind;
use pico_bus::Role;
use pico_bus::compat::pin_allowed;
use pico_bus::valid_pins;

#[test]
fn i2c0_pin_lists_are_exact() {
    assert_eq!(valid_pins(PeripheralKind::I2C0, Role::Data), vec![0, 4, 8, 12, 16, 20]);
    assert_eq!(valid_pins(PeripheralKind::I2C0, Role::Clock), vec![1, 5, 9, 13, 17, 21]);
}

#[test]
fn i2c1_pin_lists_are_exact() {
    assert_eq!(valid_pins(PeripheralKind::I2C1, Role::Data), vec![2, 6, 10, 14, 18, 26]);
    assert_eq!(valid_pins(PeripheralKind::I2C1, Role::Clock), vec![3, 7, 11, 15, 19, 27]);
}

#[test]
fn uart_pin_lists_are_exact() {
    assert_eq!(valid_pins(PeripheralKind::UART0, Role::Transmit), vec![0, 12, 16]);
    assert_eq!(valid_pins(PeripheralKind::UART0, Role::Receive), vec![1, 13, 17]);
    assert_eq!(valid_pins(PeripheralKind::UART1, Role::Transmit), vec![4, 8]);
    assert_eq!(valid_pins(PeripheralKind::UART1, Role::Receive), vec![5, 9]);
}

#[test]
fn roles_a_block_does_not_require_have_no_pins() {
    assert!(valid_pins(PeripheralKind::I2C0, Role::Transmit).is_empty());
    assert!(valid_pins(PeripheralKind::I2C0, Role::Receive).is_empty());
    assert!(valid_pins(PeripheralKind::UART1, Role::Data).is_empty());
    assert!(valid_pins(PeripheralKind::UART1, Role::Clock).is_empty());
}

#[test]
fn pin_allowed_agrees_with_the_lists() {
    for kind in [
        PeripheralKind::I2C0,
        PeripheralKind::I2C1,
        PeripheralKind::UART0,
        PeripheralKind::UART1,
    ] {
        for role in [Role::Data, Role::Clock, Role::Transmit, Role::Receive] {
            let listed = valid_pins(kind, role);
            for p in 0..=255u8 {
                assert_eq!(pin_allowed(kind, role, p), listed.contains(&p));
            }
        }
    }
}

#[test]
fn a_few_known_rejections() {
    assert!(!pin_allowed(PeripheralKind::I2C0, Role::Data, 1));
    assert!(!pin_allowed(PeripheralKind::I2C0, Role::Clock, 0));
    assert!(!pin_allowed(PeripheralKind::UART1, Role::Transmit, 0));
    assert!(!pin_allowed(PeripheralKind::UART0, Role::Receive, 29));
}
