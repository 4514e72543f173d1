//! Claiming a serial bus: the request (block, transmit pin, receive pin,
//! configuration), the transactional construction of the bus, and the bus
//! object that owns the claimed handles for its lifetime.

use vstd::prelude::*;

use crate::claim::ClaimError;
use crate::claim::after_claim;
use crate::claim::blocked_at;
use crate::claim::claim_bus;
use crate::claim::claim_grants;
use crate::compat::Role;
use crate::compat::pin_allowed;
use crate::compat::pin_valid_for;
use crate::registry::PeripheralHandle;
use crate::registry::PinHandle;
use crate::registry::ResourceRegistry;
use crate::resource::PeripheralKind;
use crate::resource::ResourceId;

verus! {

/// Configuration handed through to the claimed bus.
#[derive(Clone, Copy, PartialEq, Eq, Structural, Debug)]
pub struct UArtConfig {
    /// Line speed in bits per second.
    pub baudrate: u32,
}

impl Default for UArtConfig {
    /// The conventional line speed.
    fn default() -> (r: Self)
        ensures
            r == (UArtConfig { baudrate: 115_200 }),
    {
        UArtConfig { baudrate: 115_200 }
    }
}

/// Why claiming a serial bus failed: the block itself, its transmit pin, or
/// its receive pin was already taken.
#[derive(Clone, Copy, PartialEq, Eq, Structural, Debug)]
pub enum MakeUArtError {
    PeripheralTaken,
    TxTaken,
    RxTaken,
}

/// A request for a serial bus: which block, which pin for each role, and
/// the configuration. Built only from the enumerated pin choices, so a
/// request is always valid against the compatibility table.
pub struct UArtPlugin {
    kind: PeripheralKind,
    tx: u8,
    rx: u8,
    config: UArtConfig,
}

impl UArtPlugin {
    /// Which block the request names.
    pub closed spec fn kind_spec(&self) -> PeripheralKind {
        self.kind
    }

    /// The pin requested for the transmit role.
    pub closed spec fn tx_spec(&self) -> u8 {
        self.tx
    }

    /// The pin requested for the receive role.
    pub closed spec fn rx_spec(&self) -> u8 {
        self.rx
    }

    /// The configuration the bus will carry.
    pub closed spec fn config_spec(&self) -> UArtConfig {
        self.config
    }

    /// The request's pins in acquisition order: transmit first, then
    /// receive.
    pub open spec fn req_pins(&self) -> Seq<u8> {
        seq![self.tx_spec(), self.rx_spec()]
    }

    /// The request names a serial block and pins the compatibility table
    /// allows for it.
    pub open spec fn wf(&self) -> bool {
        &&& (self.kind_spec() == PeripheralKind::UART0 || self.kind_spec()
            == PeripheralKind::UART1)
        &&& pin_valid_for(self.kind_spec(), Role::Transmit, self.tx_spec())
        &&& pin_valid_for(self.kind_spec(), Role::Receive, self.rx_spec())
    }

    /// A request for the first block on the given transmit and receive
    /// pins, with the conventional configuration.
    pub fn uart0(tx: crate::uart0::TxPins, rx: crate::uart0::RxPins) -> (r: UArtPlugin)
        ensures
            r.wf(),
            r.kind_spec() == PeripheralKind::UART0,
            r.tx_spec() == tx.pin_spec(),
            r.rx_spec() == rx.pin_spec(),
            r.config_spec() == (UArtConfig { baudrate: 115_200 }),
    {
        UArtPlugin {
            kind: PeripheralKind::UART0,
            tx: tx.pin(),
            rx: rx.pin(),
            config: Default::default(),
        }
    }

    /// A request for the second block on the given transmit and receive
    /// pins, with the conventional configuration.
    pub fn uart1(tx: crate::uart1::TxPins, rx: crate::uart1::RxPins) -> (r: UArtPlugin)
        ensures
            r.wf(),
            r.kind_spec() == PeripheralKind::UART1,
            r.tx_spec() == tx.pin_spec(),
            r.rx_spec() == rx.pin_spec(),
            r.config_spec() == (UArtConfig { baudrate: 115_200 }),
    {
        UArtPlugin {
            kind: PeripheralKind::UART1,
            tx: tx.pin(),
            rx: rx.pin(),
            config: Default::default(),
        }
    }

    /// The same request with another configuration.
    pub fn with_config(self, config: UArtConfig) -> (r: UArtPlugin)
        ensures
            r.kind_spec() == self.kind_spec(),
            r.tx_spec() == self.tx_spec(),
            r.rx_spec() == self.rx_spec(),
            r.config_spec() == config,
            r.wf() == self.wf(),
    {
        UArtPlugin { config, ..self }
    }

    /// Whether the request is valid against the compatibility table. Always
    /// true of a request built by the constructors here; a caller that
    /// cannot track this statically may test it before building.
    pub fn valid(&self) -> (b: bool)
        ensures
            b == self.wf(),
    {
        let is_uart = match self.kind {
            PeripheralKind::I2C0 => false,
            PeripheralKind::I2C1 => false,
            PeripheralKind::UART0 => true,
            PeripheralKind::UART1 => true,
        };
        is_uart && pin_allowed(self.kind, Role::Transmit, self.tx) && pin_allowed(
            self.kind,
            Role::Receive,
            self.rx,
        )
    }

    /// Claims the block, then the transmit pin, then the receive pin from
    /// `reg`, all or nothing, and on success builds the bus from the
    /// claimed handles. A failed claim names the resource that was
    /// unavailable and leaves the registry exactly as it was.
    pub fn build(&self, reg: &mut ResourceRegistry) -> (r: Result<UArtBus, MakeUArtError>)
        requires
            old(reg).wf(),
            self.wf(),
        ensures
            final(reg).wf(),
            final(reg)@ == after_claim(old(reg)@, self.kind_spec(), self.req_pins()),
            r is Ok <==> claim_grants(old(reg)@, self.kind_spec(), self.req_pins()),
            (r matches Ok(bus) ==> {
                &&& bus.wf()
                &&& bus.kind_spec() == self.kind_spec()
                &&& bus.tx_spec() == self.tx_spec()
                &&& bus.rx_spec() == self.rx_spec()
                &&& bus.config_spec() == self.config_spec()
            }),
            (r matches Err(MakeUArtError::PeripheralTaken)) <==> !old(reg)@.contains(
                ResourceId::Peripheral(self.kind_spec()),
            ),
            (r matches Err(MakeUArtError::TxTaken)) <==> (old(reg)@.contains(
                ResourceId::Peripheral(self.kind_spec()),
            ) && blocked_at(old(reg)@, self.req_pins(), 0)),
            (r matches Err(MakeUArtError::RxTaken)) <==> (old(reg)@.contains(
                ResourceId::Peripheral(self.kind_spec()),
            ) && blocked_at(old(reg)@, self.req_pins(), 1)),
    {
        let mut pins: Vec<u8> = Vec::new();
        pins.push(self.tx);
        pins.push(self.rx);
        proof {
            assert(pins@ =~= self.req_pins());
        }
        match claim_bus(reg, self.kind, &pins) {
            Ok((periph, mut pin_handles)) => {
                let rx = pin_handles.pop().unwrap();
                let tx = pin_handles.pop().unwrap();
                Ok(UArtBus::new(periph, tx, rx, self.config))
            },
            Err(ClaimError::PeripheralTaken) => Err(MakeUArtError::PeripheralTaken),
            Err(ClaimError::PinTaken(i)) => {
                if i == 0 {
                    Err(MakeUArtError::TxTaken)
                } else {
                    Err(MakeUArtError::RxTaken)
                }
            },
        }
    }
}

impl Default for UArtPlugin {
    /// A request for the first block on its conventional pins.
    fn default() -> (r: Self)
        ensures
            r.wf(),
            r.kind_spec() == PeripheralKind::UART0,
            r.tx_spec() == 0,
            r.rx_spec() == 1,
            r.config_spec() == (UArtConfig { baudrate: 115_200 }),
    {
        UArtPlugin::uart0(Default::default(), Default::default())
    }
}

/// A serial bus built by a successful claim. It owns the handle of its
/// block and of both its pins for its whole lifetime; this subsystem never
/// returns them to the registry.
pub struct UArtBus {
    periph: PeripheralHandle,
    tx: PinHandle,
    rx: PinHandle,
    config: UArtConfig,
}

impl UArtBus {
    /// Which block the bus owns.
    pub closed spec fn kind_spec(&self) -> PeripheralKind {
        self.periph.kind_spec()
    }

    /// The number of the transmit pin the bus owns.
    pub closed spec fn tx_spec(&self) -> u8 {
        self.tx.id_spec()
    }

    /// The number of the receive pin the bus owns.
    pub closed spec fn rx_spec(&self) -> u8 {
        self.rx.id_spec()
    }

    /// The configuration the bus was built with.
    pub closed spec fn config_spec(&self) -> UArtConfig {
        self.config
    }

    /// The bus owns a serial block and pins the compatibility table allows
    /// for it.
    pub open spec fn wf(&self) -> bool {
        &&& (self.kind_spec() == PeripheralKind::UART0 || self.kind_spec()
            == PeripheralKind::UART1)
        &&& pin_valid_for(self.kind_spec(), Role::Transmit, self.tx_spec())
        &&& pin_valid_for(self.kind_spec(), Role::Receive, self.rx_spec())
    }

    /// Wraps claimed handles and a configuration into a bus. Ownership of
    /// the handles transfers to the bus.
    pub fn new(periph: PeripheralHandle, tx: PinHandle, rx: PinHandle, config: UArtConfig) -> (r:
        UArtBus)
        requires
            periph.kind_spec() == PeripheralKind::UART0 || periph.kind_spec()
                == PeripheralKind::UART1,
            pin_valid_for(periph.kind_spec(), Role::Transmit, tx.id_spec()),
            pin_valid_for(periph.kind_spec(), Role::Receive, rx.id_spec()),
        ensures
            r.wf(),
            r.kind_spec() == periph.kind_spec(),
            r.tx_spec() == tx.id_spec(),
            r.rx_spec() == rx.id_spec(),
            r.config_spec() == config,
    {
        UArtBus { periph, tx, rx, config }
    }

    /// Which block the bus owns.
    pub fn kind(&self) -> (k: PeripheralKind)
        ensures
            k == self.kind_spec(),
    {
        self.periph.kind()
    }

    /// The number of the transmit pin the bus owns.
    pub fn tx_pin(&self) -> (n: u8)
        ensures
            n == self.tx_spec(),
    {
        self.tx.id()
    }

    /// The number of the receive pin the bus owns.
    pub fn rx_pin(&self) -> (n: u8)
        ensures
            n == self.rx_spec(),
    {
        self.rx.id()
    }

    /// The configuration the bus was built with.
    pub fn config(&self) -> (c: UArtConfig)
        ensures
            c == self.config_spec(),
    {
        self.config
    }
}

} // verus!
