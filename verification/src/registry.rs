//! The resource registry: owns one singleton handle per physical resource,
//! hands a handle out on `claim` and takes it back on `release`.
//!
//! A registry's view is the set of [`ResourceId`]s still available. A claim
//! removes exactly the claimed id from that set and a release puts exactly
//! the released id back, so the view tracks availability precisely.

use vstd::prelude::*;

use crate::resource::PIN_COUNT;
use crate::resource::PeripheralKind;
use crate::resource::ResourceId;

verus! {

/// The complete resource universe of the chip: every peripheral block and
/// every GPIO line.
pub open spec fn full_universe() -> Set<ResourceId> {
    Set::new(
        |r: ResourceId|
            match r {
                ResourceId::Peripheral(_) => true,
                ResourceId::Pin(p) => (p as int) < PIN_COUNT,
            },
    )
}

/// The resource universe with every peripheral block but only the GPIO
/// lines numbered below `n`.
spec fn seeded_below(n: int) -> Set<ResourceId> {
    Set::new(
        |r: ResourceId|
            match r {
                ResourceId::Peripheral(_) => true,
                ResourceId::Pin(p) => (p as int) < n,
            },
    )
}

/// The core bring-up step: populates a fresh registry, exactly once, with
/// the complete resource universe, every resource free.
pub struct PicoCore;

impl PicoCore {
    /// Builds the registry that holds the whole chip: all four peripheral
    /// blocks and all thirty GPIO lines, available.
    pub fn build(&self) -> (r: ResourceRegistry)
        ensures
            r.wf(),
            r@ == full_universe(),
    {
        let mut r = ResourceRegistry::new();
        r.add_peripheral(PeripheralKind::I2C0);
        r.add_peripheral(PeripheralKind::I2C1);
        r.add_peripheral(PeripheralKind::UART0);
        r.add_peripheral(PeripheralKind::UART1);
        proof {
            assert(r@ =~= seeded_below(0));
        }
        let mut p: usize = 0;
        while p < PIN_COUNT
            invariant
                p <= PIN_COUNT,
                r.wf(),
                r@ == seeded_below(p as int),
            decreases PIN_COUNT - p,
        {
            r.add_pin(p as u8);
            proof {
                assert(r@ =~= seeded_below(p as int + 1));
            }
            p = p + 1;
        }
        proof {
            assert(r@ =~= full_universe());
        }
        r
    }
}

/// Witness of exclusive ownership of one peripheral block. Only
/// [`ResourceRegistry::claim_peripheral`] creates one, and releasing it
/// consumes it, so at most one is outstanding per block.
pub struct PeripheralHandle {
    kind: PeripheralKind,
}

impl PeripheralHandle {
    /// Which peripheral block this handle owns.
    pub closed spec fn kind_spec(&self) -> PeripheralKind {
        self.kind
    }

    /// Which peripheral block this handle owns.
    pub fn kind(&self) -> (k: PeripheralKind)
        ensures
            k == self.kind_spec(),
    {
        self.kind
    }
}

/// Witness of exclusive ownership of one GPIO line. Only
/// [`ResourceRegistry::claim_pin`] creates one, and releasing it consumes
/// it, so at most one is outstanding per line.
pub struct PinHandle {
    pin: u8,
}

impl PinHandle {
    /// The number of the GPIO line this handle owns.
    pub closed spec fn id_spec(&self) -> u8 {
        self.pin
    }

    /// A handle only ever holds a pin number that exists on the chip.
    pub closed spec fn valid(&self) -> bool {
        (self.pin as int) < PIN_COUNT
    }

    /// The number of the GPIO line this handle owns.
    pub fn id(&self) -> (n: u8)
        ensures
            n == self.id_spec(),
    {
        self.pin
    }
}

/// Owning container of the unclaimed resource handles. Created once with the
/// resource universe; handles leave on claim and come back on release, and
/// are never duplicated.
pub struct ResourceRegistry {
    i2c0_free: bool,
    i2c1_free: bool,
    uart0_free: bool,
    uart1_free: bool,
    pins_free: Vec<bool>,
}

impl View for ResourceRegistry {
    type V = Set<ResourceId>;

    /// The set of resource ids still available to claim.
    closed spec fn view(&self) -> Set<ResourceId> {
        Set::new(
            |r: ResourceId|
                match r {
                    ResourceId::Peripheral(k) => self.peripheral_flag(k),
                    ResourceId::Pin(p) => (p as int) < self.pins_free@.len()
                        && self.pins_free@[p as int],
                },
        )
    }
}

impl ResourceRegistry {
    /// The availability flag of one peripheral block.
    closed spec fn peripheral_flag(&self, k: PeripheralKind) -> bool {
        match k {
            PeripheralKind::I2C0 => self.i2c0_free,
            PeripheralKind::I2C1 => self.i2c1_free,
            PeripheralKind::UART0 => self.uart0_free,
            PeripheralKind::UART1 => self.uart1_free,
        }
    }

    /// Well-formedness: the pin table covers exactly the chip's GPIO lines.
    pub closed spec fn wf(&self) -> bool {
        self.pins_free@.len() == PIN_COUNT
    }

    /// An empty registry: nothing is available until the host adds the
    /// resource universe.
    pub fn new() -> (r: ResourceRegistry)
        ensures
            r.wf(),
            r@ == Set::<ResourceId>::empty(),
    {
        let mut pins_free: Vec<bool> = Vec::new();
        let mut i: usize = 0;
        while i < PIN_COUNT
            invariant
                i <= PIN_COUNT,
                pins_free@.len() == i,
                forall|j: int| 0 <= j < i ==> !pins_free@[j],
            decreases PIN_COUNT - i,
        {
            pins_free.push(false);
            i = i + 1;
        }
        let r = ResourceRegistry {
            i2c0_free: false,
            i2c1_free: false,
            uart0_free: false,
            uart1_free: false,
            pins_free,
        };
        proof {
            assert(r@ =~= Set::<ResourceId>::empty());
        }
        r
    }

    /// Makes the peripheral block `k` available. Part of the one-time
    /// population of the registry with the resource universe.
    pub fn add_peripheral(&mut self, k: PeripheralKind)
        requires
            old(self).wf(),
        ensures
            final(self).wf(),
            final(self)@ == old(self)@.insert(ResourceId::Peripheral(k)),
    {
        match k {
            PeripheralKind::I2C0 => self.i2c0_free = true,
            PeripheralKind::I2C1 => self.i2c1_free = true,
            PeripheralKind::UART0 => self.uart0_free = true,
            PeripheralKind::UART1 => self.uart1_free = true,
        }
        proof {
            assert(self@ =~= old(self)@.insert(ResourceId::Peripheral(k)));
        }
    }

    /// Makes the GPIO line `p` available. Part of the one-time population of
    /// the registry with the resource universe.
    pub fn add_pin(&mut self, p: u8)
        requires
            old(self).wf(),
            (p as int) < PIN_COUNT,
        ensures
            final(self).wf(),
            final(self)@ == old(self)@.insert(ResourceId::Pin(p)),
    {
        self.pins_free.set(p as usize, true);
        proof {
            assert(self@ =~= old(self)@.insert(ResourceId::Pin(p)));
        }
    }

    /// Removes and returns the handle of peripheral block `k` if it is
    /// available; returns nothing, and changes nothing, if it is already
    /// claimed.
    pub fn claim_peripheral(&mut self, k: PeripheralKind) -> (r: Option<PeripheralHandle>)
        requires
            old(self).wf(),
        ensures
            final(self).wf(),
            old(self)@.contains(ResourceId::Peripheral(k)) ==> {
                &&& r matches Some(h) && h.kind_spec() == k
                &&& final(self)@ == old(self)@.remove(ResourceId::Peripheral(k))
            },
            !old(self)@.contains(ResourceId::Peripheral(k)) ==> {
                &&& r is None
                &&& final(self)@ == old(self)@
            },
    {
        let free = match k {
            PeripheralKind::I2C0 => self.i2c0_free,
            PeripheralKind::I2C1 => self.i2c1_free,
            PeripheralKind::UART0 => self.uart0_free,
            PeripheralKind::UART1 => self.uart1_free,
        };
        if free {
            match k {
                PeripheralKind::I2C0 => self.i2c0_free = false,
                PeripheralKind::I2C1 => self.i2c1_free = false,
                PeripheralKind::UART0 => self.uart0_free = false,
                PeripheralKind::UART1 => self.uart1_free = false,
            }
            proof {
                assert(self@ =~= old(self)@.remove(ResourceId::Peripheral(k)));
            }
            Some(PeripheralHandle { kind: k })
        } else {
            proof {
                assert(self@ =~= old(self)@);
            }
            None
        }
    }

    /// Removes and returns the handle of GPIO line `p` if it is available;
    /// returns nothing, and changes nothing, if it is already claimed or is
    /// no line of the chip.
    pub fn claim_pin(&mut self, p: u8) -> (r: Option<PinHandle>)
        requires
            old(self).wf(),
        ensures
            final(self).wf(),
            old(self)@.contains(ResourceId::Pin(p)) ==> {
                &&& r matches Some(h) && h.id_spec() == p && h.valid()
                &&& final(self)@ == old(self)@.remove(ResourceId::Pin(p))
            },
            !old(self)@.contains(ResourceId::Pin(p)) ==> {
                &&& r is None
                &&& final(self)@ == old(self)@
            },
    {
        if (p as usize) < self.pins_free.len() && self.pins_free[p as usize] {
            self.pins_free.set(p as usize, false);
            proof {
                assert(self@ =~= old(self)@.remove(ResourceId::Pin(p)));
            }
            Some(PinHandle { pin: p })
        } else {
            proof {
                assert(self@ =~= old(self)@);
            }
            None
        }
    }

    /// Reinserts a previously claimed peripheral handle. Consuming the
    /// handle makes a double release unwritable.
    pub fn release_peripheral(&mut self, h: PeripheralHandle)
        requires
            old(self).wf(),
        ensures
            final(self).wf(),
            final(self)@ == old(self)@.insert(ResourceId::Peripheral(h.kind_spec())),
    {
        let k = h.kind();
        match k {
            PeripheralKind::I2C0 => self.i2c0_free = true,
            PeripheralKind::I2C1 => self.i2c1_free = true,
            PeripheralKind::UART0 => self.uart0_free = true,
            PeripheralKind::UART1 => self.uart1_free = true,
        }
        proof {
            assert(self@ =~= old(self)@.insert(ResourceId::Peripheral(h.kind_spec())));
        }
    }

    /// Reinserts a previously claimed pin handle. Consuming the handle makes
    /// a double release unwritable.
    pub fn release_pin(&mut self, h: PinHandle)
        requires
            old(self).wf(),
            h.valid(),
        ensures
            final(self).wf(),
            final(self)@ == old(self)@.insert(ResourceId::Pin(h.id_spec())),
    {
        let p = h.id();
        self.pins_free.set(p as usize, true);
        proof {
            assert(self@ =~= old(self)@.insert(ResourceId::Pin(h.id_spec())));
        }
    }
}

} // verus!
