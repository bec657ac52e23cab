//! The order in which two locks are taken.
//!
//! A caller that needs two locks at once takes the one at the lower address first. All
//! callers then agree on the order, whichever way round they name the two locks, and no
//! ring of callers can form in which each waits for a lock that the next one holds.
use vstd::prelude::*;

verus! {

/// Whether, of two locks at the addresses `this` and `other`, the one at `this` is taken
/// first.
pub open spec fn this_goes_first(this: usize, other: usize) -> bool {
    this <= other
}

/// The address of the lock that is taken first.
pub open spec fn first_taken(this: usize, other: usize) -> usize {
    if this_goes_first(this, other) {
        this
    } else {
        other
    }
}

/// The address of the lock that is taken second.
pub open spec fn second_taken(this: usize, other: usize) -> usize {
    if this_goes_first(this, other) {
        other
    } else {
        this
    }
}

/// Decides which of two locks to take first.
pub fn takes_this_first(this: usize, other: usize) -> (first: bool)
    ensures
        first == this_goes_first(this, other),
{
    this <= other
}

/// Two callers that name the same two locks in opposite order take them in the same
/// order.
pub proof fn same_order_both_ways(one: usize, other: usize)
    ensures
        first_taken(one, other) == first_taken(other, one),
        second_taken(one, other) == second_taken(other, one),
        one != other ==> this_goes_first(one, other) != this_goes_first(other, one),
{
}

/// A caller that was asked for the locks at `this` and `other`, has taken the first of
/// them and waits for the second.
pub struct Waiting {
    pub this: usize,
    pub other: usize,
}

impl Waiting {
    /// The lock the caller holds.
    pub open spec fn holds(self) -> usize {
        first_taken(self.this, self.other)
    }

    /// The lock the caller waits for.
    pub open spec fn wants(self) -> usize {
        second_taken(self.this, self.other)
    }
}

/// Each caller waits for the lock that the next one holds.
pub open spec fn chain(callers: Seq<Waiting>) -> bool {
    forall|at: int|
        0 <= at < callers.len() - 1 ==> (#[trigger] callers[at]).wants() == callers[at + 1].holds()
}

/// A chain that closes: the last caller waits for the lock that the first one holds.
pub open spec fn ring(callers: Seq<Waiting>) -> bool {
    callers.len() > 0 && chain(callers) && callers.last().wants() == callers[0].holds()
}

/// Along a chain the addresses of the locks held do not fall.
proof fn chain_rises(callers: Seq<Waiting>, at: int)
    requires
        chain(callers),
        0 <= at < callers.len(),
    ensures
        callers[0].holds() <= callers[at].holds(),
    decreases at,
{
    if at > 0 {
        chain_rises(callers, at - 1);
    }
}

/// Callers that each need two different locks never stand in a ring.
pub proof fn no_ring(callers: Seq<Waiting>)
    requires
        forall|at: int| 0 <= at < callers.len() ==> (#[trigger] callers[at]).this != callers[at].other,
    ensures
        !ring(callers),
{
    if ring(callers) {
        let last = callers.len() - 1;
        chain_rises(callers, last);
    }
}

} // verus!
