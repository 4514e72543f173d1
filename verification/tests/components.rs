//! The registry, the bring-up seeding, the request builders, the bus
//! accessors, the address wrapper and the pin markers.

use pico_bus::I2CAddress;
use pico_bus::I2CConfig;
use pico_bus::I2CPlugin;
use pico_bus::PeripheralKind;
use pico_bus::PicoCore;
use pico_bus::ResourceRegistry;
use pico_bus::UArtConfig;
use pico_bus::UArtPlugin;
use pico_bus::gpio::GPIO0;
use pico_bus::gpio::GPIO17;
use pico_bus::gpio::GPIO29;
use pico_bus::gpio::PicoPin;
use pico_bus::i2c0;
use pico_bus::i2c1;
use pico_bus::uart0;
use pico_bus::uart1;

#[test]
fn empty_registry_has_nothing_to_claim() {
    let mut reg = ResourceRegistry::new();
    assert!(reg.claim_peripheral(PeripheralKind::I2C0).is_none());
    assert!(reg.claim_pin(0).is_none());
}

#[test]
fn claim_is_exclusive_until_release() {
    let mut reg = ResourceRegistry::new();
    reg.add_peripheral(PeripheralKind::UART1);
    let h = reg.claim_peripheral(PeripheralKind::UART1).unwrap();
    assert_eq!(h.kind(), PeripheralKind::UART1);
    assert!(reg.claim_peripheral(PeripheralKind::UART1).is_none());
    reg.release_peripheral(h);
    assert!(reg.claim_peripheral(PeripheralKind::UART1).is_some());
}

#[test]
fn pin_claim_is_exclusive_until_release() {
    let mut reg = ResourceRegistry::new();
    reg.add_pin(7);
    let h = reg.claim_pin(7).unwrap();
    assert_eq!(h.id(), 7);
    assert!(reg.claim_pin(7).is_none());
    reg.release_pin(h);
    assert!(reg.claim_pin(7).is_some());
}

#[test]
fn unknown_pin_is_never_claimable() {
    let mut reg = PicoCore.build();
    assert!(reg.claim_pin(30).is_none());
    assert!(reg.claim_pin(200).is_none());
}

#[test]
fn core_seeding_makes_every_block_claimable_once() {
    let mut reg = PicoCore.build();
    let b1 = I2CPlugin::i2c0(i2c0::SDAPins::Gpio0, i2c0::SCLPins::Gpio1).build(&mut reg);
    let b2 = I2CPlugin::i2c1(i2c1::SDAPins::Gpio2, i2c1::SCLPins::Gpio3).build(&mut reg);
    let b3 = UArtPlugin::uart0(uart0::TxPins::Gpio12, uart0::RxPins::Gpio13).build(&mut reg);
    let b4 = UArtPlugin::uart1(uart1::TxPins::Gpio4, uart1::RxPins::Gpio5).build(&mut reg);
    assert!(b1.is_ok() && b2.is_ok() && b3.is_ok() && b4.is_ok());
}

#[test]
fn default_i2c_request_uses_conventional_pins() {
    let mut reg = PicoCore.build();
    let plugin: I2CPlugin = Default::default();
    assert!(plugin.valid());
    let bus = plugin.build(&mut reg).unwrap();
    assert_eq!(bus.kind(), PeripheralKind::I2C0);
    assert_eq!(bus.sda_pin(), 4);
    assert_eq!(bus.scl_pin(), 5);
    assert_eq!(bus.config(), I2CConfig { frequency: 100_000 });
}

#[test]
fn default_uart_request_uses_conventional_pins() {
    let mut reg = PicoCore.build();
    let plugin: UArtPlugin = Default::default();
    assert!(plugin.valid());
    let bus = plugin.build(&mut reg).unwrap();
    assert_eq!(bus.kind(), PeripheralKind::UART0);
    assert_eq!(bus.tx_pin(), 0);
    assert_eq!(bus.rx_pin(), 1);
    assert_eq!(bus.config(), UArtConfig { baudrate: 115_200 });
}

#[test]
fn with_config_reaches_the_bus() {
    let mut reg = PicoCore.build();
    let bus = I2CPlugin::i2c0(i2c0::SDAPins::Gpio8, i2c0::SCLPins::Gpio9)
        .with_config(I2CConfig { frequency: 400_000 })
        .build(&mut reg)
        .unwrap();
    assert_eq!(bus.config(), I2CConfig { frequency: 400_000 });
    let ubus = UArtPlugin::uart1(uart1::TxPins::Gpio4, uart1::RxPins::Gpio5)
        .with_config(UArtConfig { baudrate: 9_600 })
        .build(&mut reg)
        .unwrap();
    assert_eq!(ubus.config(), UArtConfig { baudrate: 9_600 });
}

#[test]
fn address_carries_its_value() {
    let a = I2CAddress::new(0x42);
    assert_eq!(a.get(), 0x42);
    assert_eq!(a.0, 0x42);
    assert_eq!(I2CAddress::new(0).get(), 0);
}

#[test]
fn pin_markers_name_their_lines() {
    assert_eq!(GPIO0::id(), 0);
    assert_eq!(GPIO17::id(), 17);
    assert_eq!(GPIO29::id(), 29);
}
