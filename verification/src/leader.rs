//! The ticks of the slot that a node leads next.
use vstd::prelude::*;

verus! {

/// A slot number or tick height that may be missing, as a natural number.
pub open spec fn opt_nat(value: Option<u64>) -> Option<nat> {
    match value {
        Some(v) => Some(v as nat),
        None => None,
    }
}

/// The tick at which leading `next_leader_slot` starts, the grace ticks after the
/// slot's first tick, and the last tick of that slot; none and zero when there is no
/// such slot.
pub open spec fn leader_slot_ticks(
    next_leader_slot: Option<nat>,
    ticks_per_slot: nat,
    grace_ticks: nat,
) -> (Option<nat>, nat) {
    match next_leader_slot {
        Some(slot) => (
            Some(slot * ticks_per_slot + grace_ticks),
            ((slot + 1) * ticks_per_slot - 1) as nat,
        ),
        None => (None, 0),
    }
}

/// Whether the ticks of slot `slot` can be counted in 64 bits.
pub open spec fn slot_fits(slot: nat, ticks_per_slot: nat) -> bool {
    &&& ticks_per_slot > 0
    &&& (slot + 1) * ticks_per_slot <= u64::MAX
}

/// Whether the ticks of the slot to lead can be counted in 64 bits.
pub open spec fn leader_slot_fits(
    next_leader_slot: Option<u64>,
    ticks_per_slot: nat,
    grace_ticks: nat,
) -> bool {
    next_leader_slot matches Some(slot) ==> {
        &&& slot_fits(slot as nat, ticks_per_slot)
        &&& slot * ticks_per_slot + grace_ticks <= u64::MAX
    }
}

/// Multiplying two numbers whose product fits, with the bounds this gives.
pub proof fn lemma_slot_bounds(slot: nat, ticks_per_slot: nat)
    requires
        slot_fits(slot, ticks_per_slot),
    ensures
        slot + 1 <= (slot + 1) * ticks_per_slot,
        slot * ticks_per_slot + ticks_per_slot == (slot + 1) * ticks_per_slot,
        0 <= slot * ticks_per_slot,
{
    assert(slot + 1 <= (slot + 1) * ticks_per_slot) by (nonlinear_arith)
        requires
            ticks_per_slot > 0,
    ;
    assert(slot * ticks_per_slot + ticks_per_slot == (slot + 1) * ticks_per_slot)
        by (nonlinear_arith);
    assert(0 <= slot * ticks_per_slot) by (nonlinear_arith);
}

} // verus!
