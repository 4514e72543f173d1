//! Exclusive arbitration of the Pico's communication peripherals and GPIO
//! lines: a registry of singleton resource handles, static pin-compatibility
//! tables, and a transactional claim/rollback algorithm that acquires a
//! peripheral plus its pins all-or-nothing.

pub mod address;
pub mod claim;
pub mod compat;
pub mod gpio;
pub mod i2c;
pub mod i2c0;
pub mod i2c1;
pub mod laws;
pub mod registry;
pub mod resource;
pub mod uart;
pub mod uart0;
pub mod uart1;

pub use address::I2CAddress;
pub use claim::ClaimError;
pub use compat::Role;
pub use compat::valid_pins;
pub use i2c::I2CBus;
pub use i2c::I2CConfig;
pub use i2c::I2CPlugin;
pub use i2c::MakeI2CError;
pub use registry::PeripheralHandle;
pub use registry::PicoCore;
pub use registry::PinHandle;
pub use registry::ResourceRegistry;
pub use resource::PeripheralKind;
pub use resource::ResourceId;
pub use uart::MakeUArtError;
pub use uart::UArtBus;
pub use uart::UArtConfig;
pub use uart::UArtPlugin;
