//! Claiming an inter-integrated-circuit bus: the request (block, data pin,
//! clock pin, configuration), the transactional construction of the bus, and
//! the bus object that owns the claimed handles for its lifetime.

use vstd::prelude::*;

use crate::claim::ClaimError;
use crate::claim::after_claim;
use crate::claim::blocked_at;
use crate::claim::claim_bus;
use crate::claim::claim_grants;
use crate::compat::Role;
use crate::compat::pin_allowed;
use crate::compat::pin_valid_for;
use crate::registry::PeripheralHandle;
use crate::registry::PinHandle;
use crate::registry::ResourceRegistry;
use crate::resource::PeripheralKind;
use crate::resource::ResourceId;

verus! {

/// Configuration handed through to the claimed bus.
#[derive(Clone, Copy, PartialEq, Eq, Structural, Debug)]
pub struct I2CConfig {
    /// Bus frequency in hertz.
    pub frequency: u32,
}

impl Default for I2CConfig {
    /// The conventional bus frequency of one hundred kilohertz.
    fn default() -> (r: Self)
        ensures
            r == (I2CConfig { frequency: 100_000 }),
    {
        I2CConfig { frequency: 100_000 }
    }
}

/// Why claiming an inter-integrated-circuit bus failed: the block itself,
/// its data pin, or its clock pin was already taken.
#[derive(Clone, Copy, PartialEq, Eq, Structural, Debug)]
pub enum MakeI2CError {
    PeripheralTaken,
    SDATaken,
    SCLTaken,
}

/// A request for an inter-integrated-circuit bus: which block, which pin
/// for each role, and the configuration. Built only from the enumerated pin
/// choices, so a request is always valid against the compatibility table.
pub struct I2CPlugin {
    kind: PeripheralKind,
    sda: u8,
    scl: u8,
    config: I2CConfig,
}

impl I2CPlugin {
    /// Which block the request names.
    pub closed spec fn kind_spec(&self) -> PeripheralKind {
        self.kind
    }

    /// The pin requested for the data role.
    pub closed spec fn sda_spec(&self) -> u8 {
        self.sda
    }

    /// The pin requested for the clock role.
    pub closed spec fn scl_spec(&self) -> u8 {
        self.scl
    }

    /// The configuration the bus will carry.
    pub closed spec fn config_spec(&self) -> I2CConfig {
        self.config
    }

    /// The request's pins in acquisition order: data first, then clock.
    pub open spec fn req_pins(&self) -> Seq<u8> {
        seq![self.sda_spec(), self.scl_spec()]
    }

    /// The request names an inter-integrated-circuit block and pins the
    /// compatibility table allows for it.
    pub open spec fn wf(&self) -> bool {
        &&& (self.kind_spec() == PeripheralKind::I2C0 || self.kind_spec() == PeripheralKind::I2C1)
        &&& pin_valid_for(self.kind_spec(), Role::Data, self.sda_spec())
        &&& pin_valid_for(self.kind_spec(), Role::Clock, self.scl_spec())
    }

    /// A request for the first block on the given data and clock pins, with
    /// the conventional configuration.
    pub fn i2c0(sda: crate::i2c0::SDAPins, scl: crate::i2c0::SCLPins) -> (r: I2CPlugin)
        ensures
            r.wf(),
            r.kind_spec() == PeripheralKind::I2C0,
            r.sda_spec() == sda.pin_spec(),
            r.scl_spec() == scl.pin_spec(),
            r.config_spec() == (I2CConfig { frequency: 100_000 }),
    {
        I2CPlugin {
            kind: PeripheralKind::I2C0,
            sda: sda.pin(),
            scl: scl.pin(),
            config: Default::default(),
        }
    }

    /// A request for the second block on the given data and clock pins,
    /// with the conventional configuration.
    pub fn i2c1(sda: crate::i2c1::SDAPins, scl: crate::i2c1::SCLPins) -> (r: I2CPlugin)
        ensures
            r.wf(),
            r.kind_spec() == PeripheralKind::I2C1,
            r.sda_spec() == sda.pin_spec(),
            r.scl_spec() == scl.pin_spec(),
            r.config_spec() == (I2CConfig { frequency: 100_000 }),
    {
        I2CPlugin {
            kind: PeripheralKind::I2C1,
            sda: sda.pin(),
            scl: scl.pin(),
            config: Default::default(),
        }
    }

    /// The same request with another configuration.
    pub fn with_config(self, config: I2CConfig) -> (r: I2CPlugin)
        ensures
            r.kind_spec() == self.kind_spec(),
            r.sda_spec() == self.sda_spec(),
            r.scl_spec() == self.scl_spec(),
            r.config_spec() == config,
            r.wf() == self.wf(),
    {
        I2CPlugin { config, ..self }
    }

    /// Whether the request is valid against the compatibility table. Always
    /// true of a request built by the constructors here; a caller that
    /// cannot track this statically may test it before building.
    pub fn valid(&self) -> (b: bool)
        ensures
            b == self.wf(),
    {
        let is_i2c = match self.kind {
            PeripheralKind::I2C0 => true,
            PeripheralKind::I2C1 => true,
            PeripheralKind::UART0 => false,
            PeripheralKind::UART1 => false,
        };
        is_i2c && pin_allowed(self.kind, Role::Data, self.sda) && pin_allowed(
            self.kind,
            Role::Clock,
            self.scl,
        )
    }

    /// Claims the block, then the data pin, then the clock pin from `reg`,
    /// all or nothing, and on success builds the bus from the claimed
    /// handles. A failed claim names the resource that was unavailable and
    /// leaves the registry exactly as it was.
    pub fn build(&self, reg: &mut ResourceRegistry) -> (r: Result<I2CBus, MakeI2CError>)
        requires
            old(reg).wf(),
            self.wf(),
        ensures
            final(reg).wf(),
            final(reg)@ == after_claim(old(reg)@, self.kind_spec(), self.req_pins()),
            r is Ok <==> claim_grants(old(reg)@, self.kind_spec(), self.req_pins()),
            (r matches Ok(bus) ==> {
                &&& bus.wf()
                &&& bus.kind_spec() == self.kind_spec()
                &&& bus.sda_spec() == self.sda_spec()
                &&& bus.scl_spec() == self.scl_spec()
                &&& bus.config_spec() == self.config_spec()
            }),
            (r matches Err(MakeI2CError::PeripheralTaken)) <==> !old(reg)@.contains(
                ResourceId::Peripheral(self.kind_spec()),
            ),
            (r matches Err(MakeI2CError::SDATaken)) <==> (old(reg)@.contains(
                ResourceId::Peripheral(self.kind_spec()),
            ) && blocked_at(old(reg)@, self.req_pins(), 0)),
            (r matches Err(MakeI2CError::SCLTaken)) <==> (old(reg)@.contains(
                ResourceId::Peripheral(self.kind_spec()),
            ) && blocked_at(old(reg)@, self.req_pins(), 1)),
    {
        let mut pins: Vec<u8> = Vec::new();
        pins.push(self.sda);
        pins.push(self.scl);
        proof {
            assert(pins@ =~= self.req_pins());
        }
        match claim_bus(reg, self.kind, &pins) {
            Ok((periph, mut pin_handles)) => {
                let scl = pin_handles.pop().unwrap();
                let sda = pin_handles.pop().unwrap();
                Ok(I2CBus::new(periph, sda, scl, self.config))
            },
            Err(ClaimError::PeripheralTaken) => Err(MakeI2CError::PeripheralTaken),
            Err(ClaimError::PinTaken(i)) => {
                if i == 0 {
                    Err(MakeI2CError::SDATaken)
                } else {
                    Err(MakeI2CError::SCLTaken)
                }
            },
        }
    }
}

impl Default for I2CPlugin {
    /// A request for the first block on its conventional pins.
    fn default() -> (r: Self)
        ensures
            r.wf(),
            r.kind_spec() == PeripheralKind::I2C0,
            r.sda_spec() == 4,
            r.scl_spec() == 5,
            r.config_spec() == (I2CConfig { frequency: 100_000 }),
    {
        I2CPlugin::i2c0(Default::default(), Default::default())
    }
}

/// An inter-integrated-circuit bus built by a successful claim. It owns the
/// handle of its block and of both its pins for its whole lifetime; this
/// subsystem never returns them to the registry.
pub struct I2CBus {
    periph: PeripheralHandle,
    sda: PinHandle,
    scl: PinHandle,
    config: I2CConfig,
}

impl I2CBus {
    /// Which block the bus owns.
    pub closed spec fn kind_spec(&self) -> PeripheralKind {
        self.periph.kind_spec()
    }

    /// The number of the data pin the bus owns.
    pub closed spec fn sda_spec(&self) -> u8 {
        self.sda.id_spec()
    }

    /// The number of the clock pin the bus owns.
    pub closed spec fn scl_spec(&self) -> u8 {
        self.scl.id_spec()
    }

    /// The configuration the bus was built with.
    pub closed spec fn config_spec(&self) -> I2CConfig {
        self.config
    }

    /// The bus owns an inter-integrated-circuit block and pins the
    /// compatibility table allows for it.
    pub open spec fn wf(&self) -> bool {
        &&& (self.kind_spec() == PeripheralKind::I2C0 || self.kind_spec() == PeripheralKind::I2C1)
        &&& pin_valid_for(self.kind_spec(), Role::Data, self.sda_spec())
        &&& pin_valid_for(self.kind_spec(), Role::Clock, self.scl_spec())
    }

    /// Wraps claimed handles and a configuration into a bus. Ownership of
    /// the handles transfers to the bus.
    pub fn new(periph: PeripheralHandle, sda: PinHandle, scl: PinHandle, config: I2CConfig) -> (r:
        I2CBus)
        requires
            periph.kind_spec() == PeripheralKind::I2C0 || periph.kind_spec()
                == PeripheralKind::I2C1,
            pin_valid_for(periph.kind_spec(), Role::Data, sda.id_spec()),
            pin_valid_for(periph.kind_spec(), Role::Clock, scl.id_spec()),
        ensures
            r.wf(),
            r.kind_spec() == periph.kind_spec(),
            r.sda_spec() == sda.id_spec(),
            r.scl_spec() == scl.id_spec(),
            r.config_spec() == config,
    {
        I2CBus { periph, sda, scl, config }
    }

    /// Which block the bus owns.
    pub fn kind(&self) -> (k: PeripheralKind)
        ensures
            k == self.kind_spec(),
    {
        self.periph.kind()
    }

    /// The number of the data pin the bus owns.
    pub fn sda_pin(&self) -> (n: u8)
        ensures
            n == self.sda_spec(),
    {
        self.sda.id()
    }

    /// The number of the clock pin the bus owns.
    pub fn scl_pin(&self) -> (n: u8)
        ensures
            n == self.scl_spec(),
    {
        self.scl.id()
    }

    /// The configuration the bus was built with.
    pub fn config(&self) -> (c: I2CConfig)
        ensures
            c == self.config_spec(),
    {
        self.config
    }
}

} // verus!
