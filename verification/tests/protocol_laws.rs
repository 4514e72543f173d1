//! Concrete instances of the protocol's guarantees: uniqueness of
//! ownership, rollback completeness, stable repeated failure, and
//! independence of disjoint claims.

use pico_bus::ClaimError;
use pico_bus::I2CPlugin;
use pico_bus::MakeI2CError;
use pico_bus::MakeUArtError;
use pico_bus::PeripheralKind;
use pico_bus::PicoCore;
use pico_bus::UArtPlugin;
use pico_bus::claim::claim_bus;
use pico_bus::i2c0;
use pico_bus::i2c1;
use pico_bus::uart1;

#[test]
fn buses_never_share_a_resource() {
    let mut reg = PicoCore.build();
    let bus1 = I2CPlugin::i2c0(i2c0::SDAPins::Gpio0, i2c0::SCLPins::Gpio1)
        .build(&mut reg)
        .unwrap();
    let bus2 = UArtPlugin::uart1(uart1::TxPins::Gpio4, uart1::RxPins::Gpio5)
        .build(&mut reg)
        .unwrap();
    let bus3 = I2CPlugin::i2c1(i2c1::SDAPins::Gpio2, i2c1::SCLPins::Gpio3)
        .build(&mut reg)
        .unwrap();
    let owned1 = [bus1.sda_pin(), bus1.scl_pin()];
    let owned2 = [bus2.tx_pin(), bus2.rx_pin()];
    let owned3 = [bus3.sda_pin(), bus3.scl_pin()];
    assert_ne!(bus1.kind(), bus2.kind());
    assert_ne!(bus1.kind(), bus3.kind());
    assert_ne!(bus2.kind(), bus3.kind());
    for a in owned1 {
        assert!(!owned2.contains(&a));
        assert!(!owned3.contains(&a));
    }
    for a in owned2 {
        assert!(!owned3.contains(&a));
    }
}

#[test]
fn failed_claim_leaves_every_touched_resource_claimable() {
    let mut reg = PicoCore.build();
    // occupy pin 5 so the receive step of the transaction fails
    let held = reg.claim_pin(5).unwrap();
    let r = UArtPlugin::uart1(uart1::TxPins::Gpio4, uart1::RxPins::Gpio5).build(&mut reg);
    assert!(matches!(r, Err(MakeUArtError::RxTaken)));
    // the block and the transmit pin it had acquired are back
    let tx = reg.claim_pin(4).unwrap();
    assert_eq!(tx.id(), 4);
    reg.release_pin(tx);
    reg.release_pin(held);
    // with pin 5 free again the same request goes through whole
    let bus = UArtPlugin::uart1(uart1::TxPins::Gpio4, uart1::RxPins::Gpio5)
        .build(&mut reg)
        .unwrap();
    assert_eq!(bus.tx_pin(), 4);
    assert_eq!(bus.rx_pin(), 5);
}

#[test]
fn repeated_failure_is_identical_and_driftless() {
    let mut reg = PicoCore.build();
    let plugin = I2CPlugin::i2c0(i2c0::SDAPins::Gpio0, i2c0::SCLPins::Gpio1);
    let _bus = plugin.build(&mut reg).unwrap();
    let again = I2CPlugin::i2c0(i2c0::SDAPins::Gpio8, i2c0::SCLPins::Gpio9);
    for _ in 0..3 {
        let r = again.build(&mut reg);
        assert!(matches!(r, Err(MakeI2CError::PeripheralTaken)));
    }
    // no drift: an unrelated claim still succeeds afterwards
    let bus2 = I2CPlugin::i2c1(i2c1::SDAPins::Gpio6, i2c1::SCLPins::Gpio7)
        .build(&mut reg)
        .unwrap();
    assert_eq!(bus2.sda_pin(), 6);
}

#[test]
fn disjoint_claims_do_not_affect_each_other() {
    // claimability of the serial request is the same whether or not the
    // disjoint inter-integrated-circuit claim happened first
    let mut fresh = PicoCore.build();
    let direct = UArtPlugin::uart1(uart1::TxPins::Gpio8, uart1::RxPins::Gpio9).build(&mut fresh);
    assert!(direct.is_ok());

    let mut reg = PicoCore.build();
    let _i2c = I2CPlugin::i2c0(i2c0::SDAPins::Gpio0, i2c0::SCLPins::Gpio1)
        .build(&mut reg)
        .unwrap();
    let after = UArtPlugin::uart1(uart1::TxPins::Gpio8, uart1::RxPins::Gpio9).build(&mut reg);
    assert!(after.is_ok());
}

#[test]
fn each_data_and_clock_failure_is_named() {
    let mut reg = PicoCore.build();
    let held4 = reg.claim_pin(4).unwrap();
    let r = I2CPlugin::i2c0(i2c0::SDAPins::Gpio4, i2c0::SCLPins::Gpio5).build(&mut reg);
    assert!(matches!(r, Err(MakeI2CError::SDATaken)));
    reg.release_pin(held4);
    let _held5 = reg.claim_pin(5).unwrap();
    let r = I2CPlugin::i2c0(i2c0::SDAPins::Gpio4, i2c0::SCLPins::Gpio5).build(&mut reg);
    assert!(matches!(r, Err(MakeI2CError::SCLTaken)));
    // the data pin the failed attempt had acquired is free again
    assert!(reg.claim_pin(4).is_some());
}

#[test]
fn taken_or_absent_block_is_refused() {
    let mut reg = PicoCore.build();
    let _bus = UArtPlugin::uart1(uart1::TxPins::Gpio4, uart1::RxPins::Gpio5)
        .build(&mut reg)
        .unwrap();
    let r = UArtPlugin::uart1(uart1::TxPins::Gpio8, uart1::RxPins::Gpio9).build(&mut reg);
    assert!(matches!(r, Err(MakeUArtError::PeripheralTaken)));

    let mut empty = pico_bus::ResourceRegistry::new();
    let r = claim_bus(&mut empty, PeripheralKind::I2C0, &vec![0u8, 1u8]);
    assert!(matches!(r, Err(ClaimError::PeripheralTaken)));
}

#[test]
fn duplicate_pin_request_rolls_back() {
    let mut reg = PicoCore.build();
    let r = claim_bus(&mut reg, PeripheralKind::UART1, &vec![4u8, 4u8]);
    assert!(matches!(r, Err(ClaimError::PinTaken(1))));
    // the first acquisition of pin 4 was rolled back
    let h = reg.claim_pin(4).unwrap();
    assert_eq!(h.id(), 4);
    let b = reg.claim_peripheral(PeripheralKind::UART1).unwrap();
    assert_eq!(b.kind(), PeripheralKind::UART1);
}
