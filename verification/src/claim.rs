//! The transactional claim: acquire one peripheral plus its pins in declared
//! order, and on any failure release everything already acquired, in reverse
//! order, before reporting which resource was unavailable.
//!
//! The outcome of a claim is specified by [`claim_grants`] (when the whole
//! request is available), [`blocked_at`] (which pin stops it first), and
//! [`after_claim`] (the registry's availability set afterwards: the request
//! removed on success, untouched on failure).

use vstd::prelude::*;

use crate::registry::PeripheralHandle;
use crate::registry::PinHandle;
use crate::registry::ResourceRegistry;
use crate::resource::PeripheralKind;
use crate::resource::ResourceId;

verus! {

/// Why a claim failed: the peripheral block itself was already taken, or the
/// pin requested for role number `i` (in declared role order) was.
#[derive(Clone, Copy, PartialEq, Eq, Structural, Debug)]
pub enum ClaimError {
    PeripheralTaken,
    PinTaken(usize),
}

/// The resource ids of the pins of a request.
pub open spec fn pin_set(pins: Seq<u8>) -> Set<ResourceId> {
    Set::new(
        |r: ResourceId| exists|j: int| 0 <= j < pins.len() && r == ResourceId::Pin(pins[j]),
    )
}

/// Pin number `j` of the request can be claimed when its turn comes: its
/// line is available and no earlier role of the same request already took it.
pub open spec fn pin_ok_at(avail: Set<ResourceId>, pins: Seq<u8>, j: int) -> bool {
    &&& avail.contains(ResourceId::Pin(pins[j]))
    &&& forall|l: int| 0 <= l < j ==> pins[l] != pins[j]
}

/// Every pin of the request can be claimed in declared order.
pub open spec fn pins_all_ok(avail: Set<ResourceId>, pins: Seq<u8>) -> bool {
    forall|j: int| 0 <= j < pins.len() ==> pin_ok_at(avail, pins, j)
}

/// Pin number `i` is the first of the request that cannot be claimed.
pub open spec fn blocked_at(avail: Set<ResourceId>, pins: Seq<u8>, i: int) -> bool {
    &&& 0 <= i < pins.len()
    &&& !pin_ok_at(avail, pins, i)
    &&& forall|j: int| 0 <= j < i ==> pin_ok_at(avail, pins, j)
}

/// The whole request is available: the peripheral block and, in declared
/// order, every requested pin.
pub open spec fn claim_grants(avail: Set<ResourceId>, k: PeripheralKind, pins: Seq<u8>) -> bool {
    &&& avail.contains(ResourceId::Peripheral(k))
    &&& pins_all_ok(avail, pins)
}

/// Availability after a claim of `(k, pins)` against `avail`: the request's
/// resources are gone when it is granted, and nothing changed when it is not.
pub open spec fn after_claim(avail: Set<ResourceId>, k: PeripheralKind, pins: Seq<u8>) -> Set<
    ResourceId,
> {
    if claim_grants(avail, k, pins) {
        avail.remove(ResourceId::Peripheral(k)).difference(pin_set(pins))
    } else {
        avail
    }
}

/// Taking one more pin of the request into account adds exactly that pin's
/// resource id to the set of pin ids considered so far.
proof fn lemma_pin_set_push(pins: Seq<u8>, n: int)
    requires
        0 <= n < pins.len(),
    ensures
        pin_set(pins.take(n + 1)) == pin_set(pins.take(n)).insert(ResourceId::Pin(pins[n])),
{
    assert forall|r: ResourceId| #[trigger] pin_set(pins.take(n + 1)).contains(r) implies pin_set(
        pins.take(n),
    ).insert(ResourceId::Pin(pins[n])).contains(r) by {
        let j = choose|j: int|
            0 <= j < pins.take(n + 1).len() && r == ResourceId::Pin(#[trigger] pins.take(n + 1)[j]);
        if j < n {
            assert(pins.take(n)[j] == pins.take(n + 1)[j]);
            assert(pin_set(pins.take(n)).contains(r));
        } else {
            assert(r == ResourceId::Pin(pins[n]));
        }
    }
    assert forall|r: ResourceId| pin_set(pins.take(n)).insert(ResourceId::Pin(pins[n])).contains(
        r,
    ) implies #[trigger] pin_set(pins.take(n + 1)).contains(r) by {
        if r == ResourceId::Pin(pins[n]) {
            assert(pins.take(n + 1)[n] == pins[n]);
        } else {
            let j = choose|j: int|
                0 <= j < pins.take(n).len() && r == ResourceId::Pin(#[trigger] pins.take(n)[j]);
            assert(pins.take(n + 1)[j] == pins.take(n)[j]);
        }
    }
    assert(pin_set(pins.take(n + 1)) =~= pin_set(pins.take(n)).insert(ResourceId::Pin(pins[n])));
}

/// A pin that no earlier role of the request names is not among the pin ids
/// of the earlier roles.
proof fn lemma_fresh_pin_not_in_prefix(pins: Seq<u8>, n: int, p: u8)
    requires
        0 <= n <= pins.len(),
        forall|l: int| 0 <= l < n ==> pins[l] != p,
    ensures
        !pin_set(pins.take(n)).contains(ResourceId::Pin(p)),
{
    if pin_set(pins.take(n)).contains(ResourceId::Pin(p)) {
        let j = choose|j: int|
            0 <= j < pins.take(n).len() && ResourceId::Pin(p) == ResourceId::Pin(
                #[trigger] pins.take(n)[j],
            );
        assert(pins.take(n)[j] == pins[j]);
        assert(false);
    }
}

/// Acquires the peripheral block `k` and then each pin of `pins` in order
/// from `reg`, all or nothing. On failure every resource already acquired is
/// released again, in reverse acquisition order, so a failed claim leaves
/// the registry exactly as it was.
#[verifier::loop_isolation(false)]
pub fn claim_bus(reg: &mut ResourceRegistry, k: PeripheralKind, pins: &Vec<u8>) -> (r: Result<
    (PeripheralHandle, Vec<PinHandle>),
    ClaimError,
>)
    requires
        old(reg).wf(),
    ensures
        final(reg).wf(),
        final(reg)@ == after_claim(old(reg)@, k, pins@),
        r is Ok <==> claim_grants(old(reg)@, k, pins@),
        (r matches Ok(granted) ==> {
            &&& granted.0.kind_spec() == k
            &&& granted.1@.len() == pins@.len()
            &&& forall|j: int|
                0 <= j < pins@.len() ==> granted.1@[j].id_spec() == pins@[j]
                    && granted.1@[j].valid()
        }),
        (r matches Err(ClaimError::PeripheralTaken)) <==> !old(reg)@.contains(
            ResourceId::Peripheral(k),
        ),
        (r matches Err(ClaimError::PinTaken(i)) ==> old(reg)@.contains(ResourceId::Peripheral(k))
            && blocked_at(old(reg)@, pins@, i as int)),
        forall|i: int|
            old(reg)@.contains(ResourceId::Peripheral(k)) && #[trigger] blocked_at(
                old(reg)@,
                pins@,
                i,
            ) ==> r == Result::<(PeripheralHandle, Vec<PinHandle>), ClaimError>::Err(
                ClaimError::PinTaken(i as usize),
            ),
{
    let ghost avail0 = reg@;
    let ph = match reg.claim_peripheral(k) {
        None => {
            return Err(ClaimError::PeripheralTaken);
        },
        Some(h) => h,
    };
    let mut handles: Vec<PinHandle> = Vec::new();
    let mut idx: usize = 0;
    while idx < pins.len()
        invariant
            reg.wf(),
            idx == handles@.len(),
            idx <= pins@.len(),
            avail0.contains(ResourceId::Peripheral(k)),
            ph.kind_spec() == k,
            forall|j: int| 0 <= j < idx ==> pin_ok_at(avail0, pins@, j),
            forall|j: int|
                0 <= j < idx ==> handles@[j].id_spec() == pins@[j] && handles@[j].valid(),
            reg@ == avail0.remove(ResourceId::Peripheral(k)).difference(
                pin_set(pins@.take(idx as int)),
            ),
        decreases pins@.len() - idx,
    {
        let ghost d_before = reg@;
        match reg.claim_pin(pins[idx]) {
            Some(h) => {
                proof {
                    let p = pins@[idx as int];
                    assert(d_before.contains(ResourceId::Pin(p)));
                    assert(avail0.contains(ResourceId::Pin(p)));
                    assert forall|l: int| 0 <= l < idx implies pins@[l] != p by {
                        if pins@[l] == p {
                            assert(pins@.take(idx as int)[l] == p);
                            assert(pin_set(pins@.take(idx as int)).contains(ResourceId::Pin(p)));
                        }
                    }
                    assert(pin_ok_at(avail0, pins@, idx as int));
                    lemma_pin_set_push(pins@, idx as int);
                    assert(reg@ =~= avail0.remove(ResourceId::Peripheral(k)).difference(
                        pin_set(pins@.take(idx as int + 1)),
                    ));
                }
                let ghost hs_before = handles@;
                handles.push(h);
                proof {
                    assert forall|j: int|
                        0 <= j < idx + 1 implies handles@[j].id_spec() == pins@[j]
                        && handles@[j].valid() by {
                        if j < idx {
                            assert(handles@[j] == hs_before[j]);
                        } else {
                            assert(handles@[j] == h);
                        }
                    }
                }
                idx = idx + 1;
            },
            None => {
                proof {
                    if pin_ok_at(avail0, pins@, idx as int) {
                        lemma_fresh_pin_not_in_prefix(pins@, idx as int, pins@[idx as int]);
                        assert(d_before.contains(ResourceId::Pin(pins@[idx as int])));
                        assert(false);
                    }
                    assert(blocked_at(avail0, pins@, idx as int));
                    assert forall|i: int| blocked_at(avail0, pins@, i) implies i == idx as int by {
                        if i < idx as int {
                            assert(pin_ok_at(avail0, pins@, i));
                        } else if i > idx as int {
                            assert(pin_ok_at(avail0, pins@, idx as int));
                        }
                    }
                }
                // roll back in reverse acquisition order
                while handles.len() > 0
                    invariant
                        reg.wf(),
                        handles@.len() <= pins@.len(),
                        avail0.contains(ResourceId::Peripheral(k)),
                        ph.kind_spec() == k,
                        forall|j: int|
                            0 <= j < handles@.len() ==> pin_ok_at(avail0, pins@, j),
                        forall|j: int|
                            0 <= j < handles@.len() ==> handles@[j].id_spec() == pins@[j]
                                && handles@[j].valid(),
                        reg@ == avail0.remove(ResourceId::Peripheral(k)).difference(
                            pin_set(pins@.take(handles@.len() as int)),
                        ),
                    decreases handles@.len(),
                {
                    let ghost n = handles@.len() as int;
                    let ghost hs0 = handles@;
                    proof {
                        assert(handles@[n - 1].id_spec() == pins@[n - 1]);
                        assert(handles@[n - 1].valid());
                    }
                    let h = handles.pop().unwrap();
                    proof {
                        assert(h == hs0[n - 1]);
                        assert(h.id_spec() == pins@[n - 1] && h.valid());
                    }
                    reg.release_pin(h);
                    proof {
                        let p = pins@[n - 1];
                        assert(pin_ok_at(avail0, pins@, n - 1));
                        lemma_pin_set_push(pins@, n - 1);
                        lemma_fresh_pin_not_in_prefix(pins@, n - 1, p);
                        assert(reg@ =~= avail0.remove(ResourceId::Peripheral(k)).difference(
                            pin_set(pins@.take(n - 1)),
                        ));
                    }
                }
                reg.release_peripheral(ph);
                proof {
                    assert(reg@ =~= avail0);
                    assert(!claim_grants(avail0, k, pins@));
                }
                return Err(ClaimError::PinTaken(idx));
            },
        }
    }
    proof {
        assert(pins@.take(pins@.len() as int) =~= pins@);
        assert(claim_grants(avail0, k, pins@));
        assert(reg@ =~= after_claim(avail0, k, pins@));
    }
    Ok((ph, handles))
}

} // verus!
