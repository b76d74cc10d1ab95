use vstd::prelude::*;

verus! {

/// How full a channel holding `len` items out of `capacity` is, in percent,
/// rounded to the nearest whole percent (halves round up). A channel never
/// holds more than its capacity; should a count above it be seen, it reads as
/// full.
pub open spec fn occupancy_spec(len: nat, capacity: nat) -> nat
    recommends
        capacity > 0,
{
    if len >= capacity {
        100
    } else {
        (200 * len + capacity) / (2 * capacity)
    }
}

/// Occupancy is a percentage: it lies between 0 and 100 whatever is sampled.
pub proof fn lemma_occupancy_in_range(len: nat, capacity: nat)
    requires
        capacity > 0,
    ensures
        0 <= occupancy_spec(len, capacity) <= 100,
{
    if len < capacity {
        assert((200 * len + capacity) / (2 * capacity) <= 100) by (nonlinear_arith)
            requires
                len < capacity,
                capacity > 0,
        {
            assert(200 * len + capacity < 101 * (2 * capacity));
        }
    }
}

/// The occupancy of a channel with `len` items queued and room for `capacity`.
pub fn occupancy_percent(len: usize, capacity: usize) -> (r: u32)
    requires
        capacity > 0,
    ensures
        r == occupancy_spec(len as nat, capacity as nat),
        r <= 100,
{
    proof {
        lemma_occupancy_in_range(len as nat, capacity as nat);
    }
    if len >= capacity {
        100
    } else {
        let num: u128 = 200 * (len as u128) + capacity as u128;
        let den: u128 = 2 * (capacity as u128);
        (num / den) as u32
    }
}

} // verus!
