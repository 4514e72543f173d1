//! The bring-up story: a registry seeded with three peripherals and all
//! pins, then a sequence of claims whose outcomes are fixed.

use pico_bus::I2CPlugin;
use pico_bus::MakeI2CError;
use pico_bus::MakeUArtError;
use pico_bus::PeripheralKind;
use pico_bus::ResourceRegistry;
use pico_bus::UArtPlugin;
use pico_bus::i2c0;
use pico_bus::i2c1;
use pico_bus::uart0;

/// Registry seeded with peripherals I2C0, I2C1 and UART0, and pins 0..29
/// all free.
fn seeded_registry() -> ResourceRegistry {
    let mut reg = ResourceRegistry::new();
    reg.add_peripheral(PeripheralKind::I2C0);
    reg.add_peripheral(PeripheralKind::I2C1);
    reg.add_peripheral(PeripheralKind::UART0);
    for p in 0..30u8 {
        reg.add_pin(p);
    }
    reg
}

#[test]
fn first_i2c_claim_succeeds() {
    let mut reg = seeded_registry();
    let bus = I2CPlugin::i2c0(i2c0::SDAPins::Gpio0, i2c0::SCLPins::Gpio1)
        .build(&mut reg)
        .unwrap();
    assert_eq!(bus.kind(), PeripheralKind::I2C0);
    assert_eq!(bus.sda_pin(), 0);
    assert_eq!(bus.scl_pin(), 1);
}

#[test]
fn second_claim_of_same_block_fails_and_touches_no_pin() {
    let mut reg = seeded_registry();
    let _bus1 = I2CPlugin::i2c0(i2c0::SDAPins::Gpio0, i2c0::SCLPins::Gpio1)
        .build(&mut reg)
        .unwrap();
    let r = I2CPlugin::i2c0(i2c0::SDAPins::Gpio4, i2c0::SCLPins::Gpio5).build(&mut reg);
    assert!(matches!(r, Err(MakeI2CError::PeripheralTaken)));
    // pins 4 and 5 remain free
    let h4 = reg.claim_pin(4).unwrap();
    let h5 = reg.claim_pin(5).unwrap();
    assert_eq!(h4.id(), 4);
    assert_eq!(h5.id(), 5);
}

#[test]
fn disjoint_block_claim_succeeds() {
    let mut reg = seeded_registry();
    let _bus1 = I2CPlugin::i2c0(i2c0::SDAPins::Gpio0, i2c0::SCLPins::Gpio1)
        .build(&mut reg)
        .unwrap();
    let bus2 = I2CPlugin::i2c1(i2c1::SDAPins::Gpio2, i2c1::SCLPins::Gpio3)
        .build(&mut reg)
        .unwrap();
    assert_eq!(bus2.kind(), PeripheralKind::I2C1);
    assert_eq!(bus2.sda_pin(), 2);
    assert_eq!(bus2.scl_pin(), 3);
}

#[test]
fn claim_fails_on_first_owned_pin() {
    let mut reg = seeded_registry();
    let _bus1 = I2CPlugin::i2c0(i2c0::SDAPins::Gpio0, i2c0::SCLPins::Gpio1)
        .build(&mut reg)
        .unwrap();
    let _bus2 = I2CPlugin::i2c1(i2c1::SDAPins::Gpio2, i2c1::SCLPins::Gpio3)
        .build(&mut reg)
        .unwrap();
    // pin 0 is owned by the first bus: the transaction stops at the
    // transmit pin, before ever reaching the receive pin
    let r = UArtPlugin::uart0(uart0::TxPins::Gpio0, uart0::RxPins::Gpio1).build(&mut reg);
    assert!(matches!(r, Err(MakeUArtError::TxTaken)));
    // the failed attempt put the block back
    let h = reg.claim_peripheral(PeripheralKind::UART0).unwrap();
    assert_eq!(h.kind(), PeripheralKind::UART0);
}

#[test]
fn claim_on_free_pins_succeeds() {
    let mut reg = seeded_registry();
    let _bus1 = I2CPlugin::i2c0(i2c0::SDAPins::Gpio0, i2c0::SCLPins::Gpio1)
        .build(&mut reg)
        .unwrap();
    let _bus2 = I2CPlugin::i2c1(i2c1::SDAPins::Gpio2, i2c1::SCLPins::Gpio3)
        .build(&mut reg)
        .unwrap();
    let r = UArtPlugin::uart0(uart0::TxPins::Gpio0, uart0::RxPins::Gpio1).build(&mut reg);
    assert!(r.is_err());
    let bus3 = UArtPlugin::uart0(uart0::TxPins::Gpio12, uart0::RxPins::Gpio13)
        .build(&mut reg)
        .unwrap();
    assert_eq!(bus3.kind(), PeripheralKind::UART0);
    assert_eq!(bus3.tx_pin(), 12);
    assert_eq!(bus3.rx_pin(), 13);
}
