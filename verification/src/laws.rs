//! The guarantees of the claim protocol, stated over the availability model
//! of [`crate::claim`]: uniqueness of ownership, completeness of rollback,
//! stability of repeated failure, and independence of disjoint claims.

use vstd::prelude::*;

use crate::claim::after_claim;
use crate::claim::blocked_at;
use crate::claim::claim_grants;
use crate::claim::pin_ok_at;
use crate::claim::pin_set;
use crate::claim::pins_all_ok;
use crate::resource::PeripheralKind;
use crate::resource::ResourceId;

verus! {

/// The resources a constructed bus owns: one peripheral block and the pins
/// of its roles, in role order.
pub struct BusModel {
    pub kind: PeripheralKind,
    pub pins: Seq<u8>,
}

/// The resource ids a bus owns.
pub open spec fn footprint(b: BusModel) -> Set<ResourceId> {
    pin_set(b.pins).insert(ResourceId::Peripheral(b.kind))
}

/// A registry and the buses built from it are consistent when no bus owns a
/// resource that is still available, and no resource is owned by two buses.
pub open spec fn consistent(avail: Set<ResourceId>, buses: Seq<BusModel>) -> bool {
    &&& forall|i: int| 0 <= i < buses.len() ==> (#[trigger] footprint(buses[i])).disjoint(avail)
    &&& forall|i: int, j: int|
        0 <= i < buses.len() && 0 <= j < buses.len() && i != j ==> (#[trigger] footprint(
            buses[i],
        )).disjoint(#[trigger] footprint(buses[j]))
}

/// Uniqueness of ownership: a granted claim takes only resources that were
/// still available, so the new bus shares no resource with any existing bus,
/// and every resource stays either available or owned by exactly one bus.
pub proof fn lemma_uniqueness(
    avail: Set<ResourceId>,
    buses: Seq<BusModel>,
    k: PeripheralKind,
    pins: Seq<u8>,
)
    requires
        consistent(avail, buses),
        claim_grants(avail, k, pins),
    ensures
        consistent(after_claim(avail, k, pins), buses.push(BusModel { kind: k, pins })),
{
    let b = BusModel { kind: k, pins };
    let after = after_claim(avail, k, pins);
    assert(footprint(b).subset_of(avail)) by {
        assert forall|r: ResourceId| footprint(b).contains(r) implies avail.contains(r) by {
            if r == ResourceId::Peripheral(k) {
            } else {
                let j = choose|j: int|
                    0 <= j < pins.len() && r == ResourceId::Pin(#[trigger] pins[j]);
                assert(pin_ok_at(avail, pins, j));
            }
        }
    }
    assert(after.disjoint(footprint(b))) by {
        assert forall|r: ResourceId| footprint(b).contains(r) implies !after.contains(r) by {
            if r != ResourceId::Peripheral(k) {
                assert(pin_set(pins).contains(r));
            }
        }
    }
    let all = buses.push(b);
    assert forall|i: int| 0 <= i < all.len() implies (#[trigger] footprint(all[i])).disjoint(
        after,
    ) by {
        if i < buses.len() {
            assert(footprint(buses[i]).disjoint(avail));
            assert(after.subset_of(avail));
        } else {
            assert(all[i] == b);
        }
    }
    assert forall|i: int, j: int|
        0 <= i < all.len() && 0 <= j < all.len() && i != j implies (#[trigger] footprint(
        all[i],
    )).disjoint(#[trigger] footprint(all[j])) by {
        if i < buses.len() && j < buses.len() {
            assert(footprint(buses[i]).disjoint(footprint(buses[j])));
        } else if i < buses.len() {
            assert(all[j] == b);
            assert(footprint(buses[i]).disjoint(avail));
            assert(footprint(b).subset_of(avail));
        } else {
            assert(all[i] == b);
            assert(j < buses.len());
            assert(footprint(buses[j]).disjoint(avail));
            assert(footprint(b).subset_of(avail));
        }
    }
}

/// Completeness of rollback: after a claim fails on pin `i`, the registry is
/// exactly what it was, and in particular the peripheral and every pin the
/// failed transaction had touched are present and claimable again.
pub proof fn lemma_rollback_completeness(
    avail: Set<ResourceId>,
    k: PeripheralKind,
    pins: Seq<u8>,
    i: int,
)
    requires
        avail.contains(ResourceId::Peripheral(k)),
        blocked_at(avail, pins, i),
    ensures
        after_claim(avail, k, pins) == avail,
        after_claim(avail, k, pins).contains(ResourceId::Peripheral(k)),
        forall|j: int|
            0 <= j < i ==> after_claim(avail, k, pins).contains(ResourceId::Pin(pins[j])),
{
    assert(!claim_grants(avail, k, pins));
    assert forall|j: int| 0 <= j < i implies avail.contains(ResourceId::Pin(pins[j])) by {
        assert(pin_ok_at(avail, pins, j));
    }
}

/// Stability of repeated failure: a claim against a taken peripheral is
/// refused, changes nothing, and is therefore refused identically however
/// often it is repeated.
pub proof fn lemma_idempotent_failure(avail: Set<ResourceId>, k: PeripheralKind, pins: Seq<u8>)
    requires
        !avail.contains(ResourceId::Peripheral(k)),
    ensures
        !claim_grants(avail, k, pins),
        after_claim(avail, k, pins) == avail,
        !claim_grants(after_claim(avail, k, pins), k, pins),
        after_claim(after_claim(avail, k, pins), k, pins) == avail,
{
}

/// Independence: a claim of peripheral `ka` with pins `pins_a`, granted or
/// not, leaves the claimability of a request for a different peripheral `kb`
/// with disjoint pins exactly as it was, block, pins and first-blocked pin
/// alike.
pub proof fn lemma_independence(
    avail: Set<ResourceId>,
    ka: PeripheralKind,
    pins_a: Seq<u8>,
    kb: PeripheralKind,
    pins_b: Seq<u8>,
)
    requires
        ka != kb,
        pin_set(pins_a).disjoint(pin_set(pins_b)),
    ensures
        after_claim(avail, ka, pins_a).contains(ResourceId::Peripheral(kb)) <==> avail.contains(
            ResourceId::Peripheral(kb),
        ),
        claim_grants(after_claim(avail, ka, pins_a), kb, pins_b) <==> claim_grants(
            avail,
            kb,
            pins_b,
        ),
        forall|i: int|
            #[trigger] blocked_at(after_claim(avail, ka, pins_a), pins_b, i) <==> blocked_at(
                avail,
                pins_b,
                i,
            ),
{
    let after = after_claim(avail, ka, pins_a);
    assert forall|j: int|
        0 <= j < pins_b.len() implies (after.contains(ResourceId::Pin(#[trigger] pins_b[j]))
        <==> avail.contains(ResourceId::Pin(pins_b[j]))) by {
        let r = ResourceId::Pin(pins_b[j]);
        assert(pin_set(pins_b).contains(r)) by {
            assert(0 <= j < pins_b.len() && r == ResourceId::Pin(pins_b[j]));
        }
        assert(!pin_set(pins_a).contains(r));
    }
    assert forall|j: int|
        0 <= j < pins_b.len() implies (#[trigger] pin_ok_at(after, pins_b, j) <==> pin_ok_at(
        avail,
        pins_b,
        j,
    )) by {
        assert(after.contains(ResourceId::Pin(pins_b[j])) <==> avail.contains(
            ResourceId::Pin(pins_b[j]),
        ));
    }
    assert(pins_all_ok(after, pins_b) <==> pins_all_ok(avail, pins_b)) by {
        if pins_all_ok(avail, pins_b) {
            assert forall|j: int| 0 <= j < pins_b.len() implies pin_ok_at(after, pins_b, j) by {
                assert(pin_ok_at(avail, pins_b, j));
            }
        }
        if pins_all_ok(after, pins_b) {
            assert forall|j: int| 0 <= j < pins_b.len() implies pin_ok_at(avail, pins_b, j) by {
                assert(pin_ok_at(after, pins_b, j));
            }
        }
    }
    assert forall|i: int| #[trigger] blocked_at(after, pins_b, i) implies blocked_at(
        avail,
        pins_b,
        i,
    ) by {
        assert(!pin_ok_at(avail, pins_b, i));
        assert forall|j: int| 0 <= j < i implies pin_ok_at(avail, pins_b, j) by {
            assert(pin_ok_at(after, pins_b, j));
        }
    }
    assert forall|i: int| #[trigger] blocked_at(avail, pins_b, i) implies blocked_at(
        after,
        pins_b,
        i,
    ) by {
        assert(!pin_ok_at(after, pins_b, i));
        assert forall|j: int| 0 <= j < i implies pin_ok_at(after, pins_b, j) by {
            assert(pin_ok_at(avail, pins_b, j));
        }
    }
}

} // verus!
